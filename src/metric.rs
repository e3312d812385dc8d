use vstd::prelude::*;
use crate::table::StreamCells;

verus! {

/// A sub-metric that is set against the total stream count.
#[derive(Clone, Copy, Debug, PartialEq, Eq, Structural)]
pub enum Metric {
    Solo,
    Feature,
    Lead,
}

/// The relationships that are analysed, in the order they are run.
pub fn relationships() -> (r: Vec<Metric>)
    ensures
        r@ == seq![Metric::Solo, Metric::Feature, Metric::Lead],
{
    vec![Metric::Solo, Metric::Feature, Metric::Lead]
}

impl Metric {
    /// The cell of a row that gives this metric, the x of its samples.
    pub fn cell<'a>(&self, c: &'a StreamCells) -> (r: &'a String)
        ensures
            r == match *self {
                Metric::Solo => &c.solo_streams,
                Metric::Feature => &c.feature_streams,
                Metric::Lead => &c.lead_streams,
            },
    {
        match self {
            Metric::Solo => &c.solo_streams,
            Metric::Feature => &c.feature_streams,
            Metric::Lead => &c.lead_streams,
        }
    }

    /// The name of the metric, as the reports give it.
    pub fn label(&self) -> (r: String)
        ensures
            r@ == match *self {
                Metric::Solo => "Solo Streams"@,
                Metric::Feature => "Featured Streams"@,
                Metric::Lead => "Lead Streams"@,
            },
    {
        match self {
            Metric::Solo => String::from_str("Solo Streams"),
            Metric::Feature => String::from_str("Featured Streams"),
            Metric::Lead => String::from_str("Lead Streams"),
        }
    }

    /// The title of the relationship's plot.
    pub fn title(&self) -> (r: String)
        ensures
            r@ == "Total Streams vs "@ + match *self {
                Metric::Solo => "Solo Streams"@,
                Metric::Feature => "Featured Streams"@,
                Metric::Lead => "Lead Streams"@,
            },
    {
        let mut t = String::from_str("Total Streams vs ");
        let l = self.label();
        t.append(l.as_str());
        t
    }
}

} // verus!
