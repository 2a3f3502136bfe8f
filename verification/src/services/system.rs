use vstd::prelude::*;
use crate::result::ApiResult;
use crate::text::{i64_to_decimal, int_decimal};

verus! {

/// The job looked up by id: the last of the jobs the query found, or
/// `Job <id> not found` when it found none; a failed query passes through.
pub fn job_from_query<T>(result: ApiResult<Vec<T>>, job_id: i32) -> (r: ApiResult<T>)
    ensures
        match result {
            ApiResult::Success(jobs) => if jobs@.len() > 0 {
                r == ApiResult::Success(jobs@.last())
            } else {
                r matches ApiResult::Error { message }
                    && message@ == "Job "@ + int_decimal(job_id as int) + " not found"@
            },
            ApiResult::Error { message } => r == ApiResult::<T>::Error { message },
            ApiResult::Loading => r is Loading,
        },
{
    match result {
        ApiResult::Success(mut jobs) => match jobs.pop() {
            Some(job) => ApiResult::Success(job),
            None => {
                let mut m = String::new();
                m.append("Job ");
                let id = i64_to_decimal(job_id as i64);
                m.append(id.as_str());
                m.append(" not found");
                ApiResult::Error { message: m }
            },
        },
        ApiResult::Error { message } => ApiResult::Error { message },
        ApiResult::Loading => ApiResult::Loading,
    }
}

} // verus!
