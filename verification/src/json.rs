use vstd::prelude::*;

use crate::columns::SignalColumns;
use crate::request::RequestError;

verus! {

/// The first `n` entries of one column as JSON array items: the decimal
/// texts joined by commas.
pub open spec fn json_items(v: Seq<String>, n: int) -> Seq<char>
    decreases n,
{
    if n <= 0 {
        Seq::empty()
    } else if n == 1 {
        v[0]@
    } else {
        json_items(v, n - 1) + ","@ + v[n - 1]@
    }
}

/// One column as a JSON array of its decimal texts.
pub open spec fn json_array(v: Seq<String>) -> Seq<char> {
    "["@ + json_items(v, v.len() as int) + "]"@
}

impl SignalColumns {
    /// The whole JSON document: one object with the six parallel ordered
    /// sequences under their column names.
    pub open spec fn json_text(&self) -> Seq<char> {
        "{\"t\":"@ + json_array(self.t@) + ",\"x1\":"@ + json_array(self.x1@) + ",\"x2\":"@
            + json_array(self.x2@) + ",\"y1\":"@ + json_array(self.y1@) + ",\"y2\":"@
            + json_array(self.y2@) + ",\"y3\":"@ + json_array(self.y3@) + "}"@
    }

    /// Renders the columns as a JSON object of six parallel arrays.
    /// Misaligned columns are rejected fast with a length-mismatch error
    /// rather than truncated or padded.
    pub fn to_json(&self) -> (r: Result<String, RequestError>)
        ensures
            r is Ok <==> self.is_aligned(),
            r is Ok ==> r->Ok_0@ == self.json_text(),
            !self.is_aligned() ==> r == Err::<String, RequestError>(RequestError::LengthMismatch),
    {
        let n = self.t.len();
        if !(self.x1.len() == n && self.x2.len() == n && self.y1.len() == n && self.y2.len() == n
            && self.y3.len() == n) {
            return Err(RequestError::LengthMismatch);
        }
        let mut out: String = "{\"t\":".to_owned();
        append_json_array(&mut out, &self.t);
        out.append(",\"x1\":");
        append_json_array(&mut out, &self.x1);
        out.append(",\"x2\":");
        append_json_array(&mut out, &self.x2);
        out.append(",\"y1\":");
        append_json_array(&mut out, &self.y1);
        out.append(",\"y2\":");
        append_json_array(&mut out, &self.y2);
        out.append(",\"y3\":");
        append_json_array(&mut out, &self.y3);
        out.append("}");
        proof {
            assert(out@ =~= self.json_text());
        }
        Ok(out)
    }
}

/// Appends one column to the output as a JSON array.
fn append_json_array(out: &mut String, v: &Vec<String>)
    ensures
        final(out)@ == old(out)@ + json_array(v@),
{
    out.append("[");
    let n = v.len();
    for i in 0..n
        invariant
            n == v@.len(),
            out@ == old(out)@ + "["@ + json_items(v@, i as int),
    {
        if i > 0 {
            out.append(",");
        }
        out.append(v[i].as_str());
        proof {
            assert(out@ =~= old(out)@ + "["@ + json_items(v@, i + 1));
        }
    }
    out.append("]");
    proof {
        assert(out@ =~= old(out)@ + json_array(v@));
    }
}

} // verus!
