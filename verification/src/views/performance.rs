use vstd::prelude::*;
use crate::models::system::{ReportingGraphName, ReportingGraphQuery, ReportingUnit};

verus! {

/// The metrics of the performance screen.
#[derive(Debug, Clone, PartialEq, Eq, Structural)]
pub enum MetricType {
    Cpu,
    Memory,
    Temperature,
}

/// The name of the page a metric is shown on.
pub fn metric_page_name(m: &MetricType) -> (s: &'static str)
    ensures
        s@ == match *m {
            MetricType::Cpu => "cpu"@,
            MetricType::Memory => "memory"@,
            MetricType::Temperature => "temp"@,
        },
{
    match m {
        MetricType::Cpu => "cpu",
        MetricType::Memory => "memory",
        MetricType::Temperature => "temp",
    }
}

/// The graph a metric is read from.
pub fn metric_graph(m: &MetricType) -> (g: ReportingGraphName)
    ensures
        g == match *m {
            MetricType::Cpu => ReportingGraphName::Cpu,
            MetricType::Memory => ReportingGraphName::Memory,
            MetricType::Temperature => ReportingGraphName::CpuTemp,
        },
{
    match m {
        MetricType::Cpu => ReportingGraphName::Cpu,
        MetricType::Memory => ReportingGraphName::Memory,
        MetricType::Temperature => ReportingGraphName::CpuTemp,
    }
}

/// The query of the performance screen: the last hour, aggregated.
pub fn hourly_query() -> (q: ReportingGraphQuery)
    ensures
        q.unit == Some(ReportingUnit::Hour),
        q.aggregate == Some(true),
        q.page is None,
        q.start is None,
        q.end is None,
{
    ReportingGraphQuery { unit: Some(ReportingUnit::Hour), page: None, aggregate: Some(true), start: None, end: None }
}

} // verus!
