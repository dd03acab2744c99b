//! Request telemetry for a composable HTTP handler pipeline: semantic-convention
//! attributes, span lifecycle decisions, metric recording decisions, and the
//! context discipline of nested handler instrumentation.
pub mod attributes;
pub mod instrument_handler;
pub mod lifecycle;
pub mod metrics;
mod semconv;
pub mod text;
pub mod trace;

pub use attributes::{AttrValue, Attribute, ConnSnapshot, MirroredHeader};
pub use instrument_handler::{instrument_handler, InstrumentHandler, Phase, PhaseScope};
pub use lifecycle::HostEvent;
pub use metrics::{HistogramSetup, Measurement, MetricsPhase, MetricsPlan};
pub use trace::{SpanPhase, SpanStart, SpanStep, SpanUpdate};
