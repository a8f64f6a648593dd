use vstd::prelude::*;

use crate::columns::SignalColumns;
use crate::request::RequestError;

verus! {

/// The fixed CSV header line.
pub open spec fn csv_header() -> Seq<char> {
    "t,x1,x2,y1,y2,y3\n"@
}

/// One CSV row: the six fields of one sample, comma-separated and
/// newline-terminated.
pub open spec fn csv_row(
    t: Seq<char>,
    x1: Seq<char>,
    x2: Seq<char>,
    y1: Seq<char>,
    y2: Seq<char>,
    y3: Seq<char>,
) -> Seq<char> {
    t + ","@ + x1 + ","@ + x2 + ","@ + y1 + ","@ + y2 + ","@ + y3 + "\n"@
}

impl SignalColumns {
    /// The first `n` CSV rows of these columns, in time-grid order.
    pub open spec fn csv_rows(&self, n: int) -> Seq<char>
        decreases n,
    {
        if n <= 0 {
            Seq::empty()
        } else {
            self.csv_rows(n - 1) + csv_row(
                self.t@[n - 1]@,
                self.x1@[n - 1]@,
                self.x2@[n - 1]@,
                self.y1@[n - 1]@,
                self.y2@[n - 1]@,
                self.y3@[n - 1]@,
            )
        }
    }

    /// The whole CSV document: header line, then one row per sample.
    pub open spec fn csv_text(&self) -> Seq<char> {
        csv_header() + self.csv_rows(self.sample_count() as int)
    }

    /// Renders the columns as CSV. Misaligned columns are rejected fast
    /// with a length-mismatch error rather than truncated or padded.
    pub fn to_csv(&self) -> (r: Result<String, RequestError>)
        ensures
            r is Ok <==> self.is_aligned(),
            r is Ok ==> r->Ok_0@ == self.csv_text(),
            !self.is_aligned() ==> r == Err::<String, RequestError>(RequestError::LengthMismatch),
    {
        let n = self.t.len();
        if !(self.x1.len() == n && self.x2.len() == n && self.y1.len() == n && self.y2.len() == n
            && self.y3.len() == n) {
            return Err(RequestError::LengthMismatch);
        }
        let mut out: String = "t,x1,x2,y1,y2,y3\n".to_owned();
        for i in 0..n
            invariant
                n == self.t@.len(),
                self.is_aligned(),
                out@ == csv_header() + self.csv_rows(i as int),
        {
            out.append(self.t[i].as_str());
            out.append(",");
            out.append(self.x1[i].as_str());
            out.append(",");
            out.append(self.x2[i].as_str());
            out.append(",");
            out.append(self.y1[i].as_str());
            out.append(",");
            out.append(self.y2[i].as_str());
            out.append(",");
            out.append(self.y3[i].as_str());
            out.append("\n");
            proof {
                assert(out@ =~= csv_header() + self.csv_rows(i + 1));
            }
        }
        Ok(out)
    }
}

/// The CSV rows are determined by the column entries alone.
proof fn lemma_csv_rows_deterministic(a: SignalColumns, b: SignalColumns, n: int)
    requires
        a.t@ == b.t@,
        a.x1@ == b.x1@,
        a.x2@ == b.x2@,
        a.y1@ == b.y1@,
        a.y2@ == b.y2@,
        a.y3@ == b.y3@,
    ensures
        a.csv_rows(n) == b.csv_rows(n),
    decreases n,
{
    if n > 0 {
        lemma_csv_rows_deterministic(a, b, n - 1);
    }
}

/// The CSV document is determined by the column entries alone.
pub(crate) proof fn lemma_csv_deterministic(a: SignalColumns, b: SignalColumns)
    requires
        a.t@ == b.t@,
        a.x1@ == b.x1@,
        a.x2@ == b.x2@,
        a.y1@ == b.y1@,
        a.y2@ == b.y2@,
        a.y3@ == b.y3@,
    ensures
        a.csv_text() == b.csv_text(),
{
    lemma_csv_rows_deterministic(a, b, a.sample_count() as int);
}

} // verus!
