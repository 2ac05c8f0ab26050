//! Assembly of human-readable error text from a server's rejection of a
//! submitted form.
//!
//! When registration or another form is rejected, the server answers
//! with a list of field errors, each a message and a code. The text
//! shown to the caller is their concatenation, every message followed
//! by its code in parentheses.

use vstd::prelude::*;
use vstd::string::StringExecFns;

verus! {

/// The text for one field error: the message, then the code in
/// parentheses.
pub open spec fn form_error_line(message: Seq<char>, code: Seq<char>) -> Seq<char> {
    message + " ("@ + code + ")"@
}

/// The text for a whole list of field errors, in order.
pub open spec fn form_error_text(items: Seq<(String, String)>) -> Seq<char>
    decreases items.len(),
{
    if items.len() == 0 {
        Seq::<char>::empty()
    } else {
        form_error_text(items.drop_last()) + form_error_line(
            items.last().0@,
            items.last().1@,
        )
    }
}

/// Renders a list of field errors, each a message paired with its code,
/// as one line of text: every message followed by its code in
/// parentheses.
pub fn format_form_errors(items: &Vec<(String, String)>) -> (r: String)
    ensures
        r@ == form_error_text(items@),
{
    let mut out = String::new();
    let n = items.len();
    let mut k: usize = 0;
    while k < n
        invariant
            k <= n,
            n == items@.len(),
            out@ == form_error_text(items@.take(k as int)),
        decreases n - k,
    {
        let ghost prefix = items@.take(k as int);
        out.append(items[k].0.as_str());
        out.append(" (");
        out.append(items[k].1.as_str());
        out.append(")");
        k += 1;
        proof {
            let taken = items@.take(k as int);
            assert(taken.drop_last() =~= prefix);
            assert(taken.last() == items@[k - 1]);
        }
    }
    proof {
        assert(items@.take(n as int) =~= items@);
    }
    out
}

} // verus!
