//! The text printed when a run fails: every cause of the failure, the
//! outermost context first.

use vstd::prelude::*;
use vstd::string::*;

verus! {

pub open spec fn separator() -> Seq<char> {
    "   Which caused the following issue:\n"@
}

pub open spec fn trace_prefix() -> Seq<char> {
    " This happened at "@
}

pub open spec fn newline() -> Seq<char> {
    "\n"@
}

/// One cause: its message, then ` This happened at <trace>` and a line
/// break when the trace text is non-empty, else just the line break.
pub open spec fn spec_cause_block(message: Seq<char>, trace: Seq<char>) -> Seq<char> {
    if trace.len() > 0 {
        message + trace_prefix() + trace + newline()
    } else {
        message + newline()
    }
}

/// The blocks of all causes in the order given, with the separator line
/// between consecutive blocks.
pub open spec fn spec_cause_chain_text(causes: Seq<(Seq<char>, Seq<char>)>) -> Seq<char>
    decreases causes.len(),
{
    if causes.len() == 0 {
        Seq::empty()
    } else {
        let prev = spec_cause_chain_text(causes.drop_last());
        let sep = if causes.len() > 1 {
            separator()
        } else {
            Seq::empty()
        };
        prev + sep + spec_cause_block(causes.last().0, causes.last().1)
    }
}

pub open spec fn cause_views(causes: Seq<(String, String)>) -> Seq<(Seq<char>, Seq<char>)> {
    causes.map_values(|c: (String, String)| (c.0@, c.1@))
}

/// Renders a failure's causes, given as (message, trace text) pairs from
/// the outermost context to the root cause, in that order.
pub fn cause_chain_text(causes: &Vec<(String, String)>) -> (r: String)
    ensures
        r@ == spec_cause_chain_text(cause_views(causes@)),
{
    let mut result = String::new();
    let mut i: usize = 0;
    assert(cause_views(causes@).subrange(0, 0) =~= Seq::<(Seq<char>, Seq<char>)>::empty());
    while i < causes.len()
        invariant
            i <= causes@.len(),
            result@ == spec_cause_chain_text(cause_views(causes@).subrange(0, i as int)),
        decreases causes@.len() - i,
    {
        let ghost before = result@;
        let ghost cs = cause_views(causes@).subrange(0, i + 1);
        assert(cs.drop_last() =~= cause_views(causes@).subrange(0, i as int));
        let (message, trace) = &causes[i];
        if i > 0 {
            result.append("   Which caused the following issue:\n");
        }
        let ghost with_sep = result@;
        assert(with_sep == before + (if cs.len() > 1 { separator() } else { Seq::empty() })) by {
            if i == 0 {
                assert(with_sep =~= before + Seq::<char>::empty());
            }
        }
        result.append(message.as_str());
        if trace.unicode_len() > 0 {
            result.append(" This happened at ");
            result.append(trace.as_str());
            result.append("\n");
        } else {
            result.append("\n");
        }
        assert(cs.last() == (message@, trace@));
        assert(result@ =~= with_sep + spec_cause_block(message@, trace@));
        i = i + 1;
    }
    assert(cause_views(causes@).subrange(0, i as int) =~= cause_views(causes@));
    result
}

} // verus!
