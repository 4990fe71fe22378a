//! Which modules log at which level.

use crate::text::join;
use vstd::prelude::*;

verus! {

/// The lower-case form of a text, as `str::to_lowercase` maps it.
pub uninterp spec fn lowercase(text: Seq<char>) -> Seq<char>;

/// The lower-case equivalent of a text, computed by `str::to_lowercase`.
/// The contract gives the result its name and claims nothing else of it.
#[verifier::external_body]
fn to_lowercase(text: &str) -> (lowered: String)
    ensures
        lowered@ == lowercase(text@),
{
    text.to_lowercase()
}

/// The filter for a log level, given the lower-case form of the level.
/// At trace level the broker client is traced along with the pipeline; at
/// any other, the two modules of the pipeline log at the level as it was
/// written.
pub open spec fn filter_for(log_level: Seq<char>, lowered: Seq<char>) -> Seq<char> {
    if lowered == "trace"@ {
        "mqtt2influx=trace,mqtt2influx_core=trace,rumqttc=trace"@
    } else {
        "mqtt2influx="@ + log_level + ",mqtt2influx_core="@ + log_level
    }
}

/// The filter for `log_level`, whose lower-case form is `lowered`.
pub fn filter_from(log_level: &str, lowered: &str) -> (filter: String)
    ensures
        filter@ == filter_for(log_level@, lowered@),
{
    if lowered.to_owned() == "trace".to_owned() {
        "mqtt2influx=trace,mqtt2influx_core=trace,rumqttc=trace".to_owned()
    } else {
        let mut filter = join("mqtt2influx=", log_level);
        filter.append(",mqtt2influx_core=");
        filter.append(log_level);
        filter
    }
}

/// The filter that a log level stands for, whatever its case.
pub fn log_filter(log_level: &str) -> (filter: String)
    ensures
        filter@ == filter_for(log_level@, lowercase(log_level@)),
{
    let lowered = to_lowercase(log_level);
    filter_from(log_level, lowered.as_str())
}

} // verus!
