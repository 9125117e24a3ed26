//! The block of the hosts file that maps instances' local names.
use vstd::prelude::*;
use vstd::string::StringExecFns;
use crate::text::{concat, text_eq};

verus! {

#[derive(Clone, Copy, Debug, PartialEq, Eq, Structural)]
pub enum HostsFileAction {
    Add,
    Remove,
    Purge,
}

pub const HOSTS_START: &'static str = "# START WP_DEV";

pub const HOSTS_END: &'static str = "# END WP_DEV";

/// What `str::trim` leaves of a line.
pub uninterp spec fn trimmed(s: Seq<char>) -> Seq<char>;

/// Relies on `str::trim`: the line without its leading and trailing white
/// space, which depends on the characters alone.
#[verifier::external_body]
fn trim(s: &str) -> (r: &str)
    ensures
        r@ == trimmed(s@),
{
    s.trim()
}

/// The hosts entry of the instance `label`.
pub open spec fn hosts_entry(label: Seq<char>) -> Seq<char> {
    "127.0.0.1 "@ + label + ".local"@
}

/// Where the rewriting stands: inside the block, and whether the entry was
/// written.
pub type HostsState = (bool, bool);

/// What one line of the old file becomes, and the state after it.
pub open spec fn hosts_step(
    st: HostsState,
    line: Seq<char>,
    label: Seq<char>,
    action: HostsFileAction,
) -> (HostsState, Seq<Seq<char>>) {
    let t = trimmed(line);
    if t == HOSTS_START@ {
        if action == HostsFileAction::Add {
            ((true, true), seq![line, hosts_entry(label)])
        } else if action != HostsFileAction::Purge {
            ((true, st.1), seq![line])
        } else {
            ((true, st.1), seq![])
        }
    } else if t == HOSTS_END@ {
        ((false, st.1), if action != HostsFileAction::Purge { seq![line] } else { seq![] })
    } else if !st.0 || (action == HostsFileAction::Remove && t != hosts_entry(label)) {
        (st, seq![line])
    } else {
        (st, seq![])
    }
}

pub open spec fn hosts_fold(lines: Seq<Seq<char>>, label: Seq<char>, action: HostsFileAction) -> (
    HostsState,
    Seq<Seq<char>>,
)
    decreases lines.len(),
{
    if lines.len() == 0 {
        ((false, false), Seq::empty())
    } else {
        let (st, out) = hosts_fold(lines.drop_last(), label, action);
        let (st2, more) = hosts_step(st, lines.last(), label, action);
        (st2, out + more)
    }
}

/// The new lines of a hosts file: adding writes the instance's entry as the
/// only one of the block, and a new block at the end where there was none;
/// removing drops the instance's entry from the block; purging drops the
/// block's contents and markers. Lines outside the block are kept.
pub open spec fn rewritten_hosts(lines: Seq<Seq<char>>, label: Seq<char>, action: HostsFileAction) -> Seq<Seq<char>> {
    let (st, out) = hosts_fold(lines, label, action);
    if action == HostsFileAction::Add && !st.1 {
        out + seq![Seq::empty(), HOSTS_START@, hosts_entry(label), HOSTS_END@]
    } else {
        out
    }
}

/// Rewrites the lines of a hosts file for `action` on the instance
/// `instance_label`.
pub fn update_hosts_lines(lines: &Vec<String>, instance_label: &str, action: HostsFileAction) -> (r: Vec<String>)
    ensures
        crate::text::strings_view(r@) == rewritten_hosts(crate::text::strings_view(lines@), instance_label@, action),
{
    let ghost ls = crate::text::strings_view(lines@);
    let mut entry = concat("127.0.0.1 ", instance_label);
    entry.append(".local");
    let mut out: Vec<String> = Vec::new();
    let mut in_block = false;
    let mut handled = false;
    let mut i: usize = 0;
    while i < lines.len()
        invariant
            i <= lines.len(),
            ls == crate::text::strings_view(lines@),
            entry@ == hosts_entry(instance_label@),
            hosts_fold(ls.take(i as int), instance_label@, action) == ((in_block, handled),
            crate::text::strings_view(out@)),
        decreases lines.len() - i,
    {
        assert(ls.take(i + 1).drop_last() =~= ls.take(i as int));
        assert(ls.take(i + 1).last() == lines@[i as int]@);
        let ghost prev = crate::text::strings_view(out@);
        let line = lines[i].as_str();
        let t = trim(line);
        if text_eq(t, HOSTS_START) {
            in_block = true;
            if action == HostsFileAction::Add {
                out.push(line.to_owned());
                out.push(entry.clone());
                handled = true;
                assert(crate::text::strings_view(out@) =~= prev + seq![line@, entry@]);
            } else if action != HostsFileAction::Purge {
                out.push(line.to_owned());
                assert(crate::text::strings_view(out@) =~= prev + seq![line@]);
            } else {
                assert(crate::text::strings_view(out@) =~= prev + Seq::<Seq<char>>::empty());
            }
        } else if text_eq(t, HOSTS_END) {
            in_block = false;
            if action != HostsFileAction::Purge {
                out.push(line.to_owned());
                assert(crate::text::strings_view(out@) =~= prev + seq![line@]);
            } else {
                assert(crate::text::strings_view(out@) =~= prev + Seq::<Seq<char>>::empty());
            }
        } else if !in_block || (action == HostsFileAction::Remove && !text_eq(t, entry.as_str())) {
            out.push(line.to_owned());
            assert(crate::text::strings_view(out@) =~= prev + seq![line@]);
        } else {
            assert(crate::text::strings_view(out@) =~= prev + Seq::<Seq<char>>::empty());
        }
        i = i + 1;
    }
    assert(ls.take(i as int) =~= ls);
    if action == HostsFileAction::Add && !handled {
        let ghost prev = crate::text::strings_view(out@);
        out.push(String::new());
        out.push(HOSTS_START.to_owned());
        out.push(entry);
        out.push(HOSTS_END.to_owned());
        assert(crate::text::strings_view(out@) =~= prev + seq![Seq::empty(), HOSTS_START@, hosts_entry(instance_label@), HOSTS_END@]);
    }
    out
}

} // verus!
