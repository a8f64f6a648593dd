use vstd::prelude::*;

use crate::csv::lemma_csv_deterministic;
use crate::request::RequestError;

verus! {

/// The six parallel output columns of one request, positionally aligned:
/// `t` is the time grid, `x1` and `x2` the two synthesized signals, and
/// `y1`, `y2`, `y3` their elementwise sum, difference and product. Each
/// entry is the decimal text of one sample, ready for transport.
pub struct SignalColumns {
    pub t: Vec<String>,
    pub x1: Vec<String>,
    pub x2: Vec<String>,
    pub y1: Vec<String>,
    pub y2: Vec<String>,
    pub y3: Vec<String>,
}

/// The one serialization mode a deployment chooses for its responses.
/// Exactly one is active; the columns handed to the renderer are the
/// same either way.
#[derive(Clone, Copy, Debug, PartialEq, Eq, Structural)]
pub enum OutputFormat {
    Csv,
    Json,
}

impl SignalColumns {
    /// All six columns have the same length: one entry per sample.
    pub open spec fn is_aligned(&self) -> bool {
        &&& self.x1@.len() == self.t@.len()
        &&& self.x2@.len() == self.t@.len()
        &&& self.y1@.len() == self.t@.len()
        &&& self.y2@.len() == self.t@.len()
        &&& self.y3@.len() == self.t@.len()
    }

    /// How many samples (rows) the columns hold.
    pub open spec fn sample_count(&self) -> nat {
        self.t@.len()
    }

    /// The text these columns render to under the given mode.
    pub open spec fn rendered_text(&self, format: OutputFormat) -> Seq<char> {
        match format {
            OutputFormat::Csv => self.csv_text(),
            OutputFormat::Json => self.json_text(),
        }
    }

    /// Renders the columns under the deployment's serialization mode.
    /// Misaligned columns are a caller error that normal operation never
    /// produces; they are rejected fast with a length-mismatch error
    /// rather than truncated or padded.
    pub fn render(&self, format: OutputFormat) -> (r: Result<String, RequestError>)
        ensures
            r is Ok <==> self.is_aligned(),
            r is Ok ==> r->Ok_0@ == self.rendered_text(format),
            !self.is_aligned() ==> r == Err::<String, RequestError>(RequestError::LengthMismatch),
    {
        match format {
            OutputFormat::Csv => self.to_csv(),
            OutputFormat::Json => self.to_json(),
        }
    }
}

/// Producing the output is deterministic: two requests whose columns hold
/// equal entries render to identical text under either serialization mode.
/// The core keeps no state between invocations, so running it twice on the
/// same parameters gives the same document.
pub proof fn lemma_render_deterministic(a: SignalColumns, b: SignalColumns, format: OutputFormat)
    requires
        a.t@ == b.t@,
        a.x1@ == b.x1@,
        a.x2@ == b.x2@,
        a.y1@ == b.y1@,
        a.y2@ == b.y2@,
        a.y3@ == b.y3@,
    ensures
        a.rendered_text(format) == b.rendered_text(format),
{
    match format {
        OutputFormat::Csv => lemma_csv_deterministic(a, b),
        OutputFormat::Json => {},
    }
}

} // verus!
