//! Making a database dump ready to run.

use vstd::prelude::*;

use crate::text;

verus! {

/// How a dump sets the search path.
pub const SEARCH_PATH: &'static str = "set_config('search_path'";

/// How the search path is set in its place.
pub const PUBLIC_SEARCH_PATH: &'static str =
    "SELECT pg_catalog.set_config('search_path', 'public', false);";

/// Whether a line is a command to the `psql` shell.
pub open spec fn is_command(line: Seq<char>) -> bool {
    "\\"@.is_prefix_of(line)
}

/// A line, or what stands in its place.
pub open spec fn rewritten(line: Seq<char>) -> Seq<char> {
    if text::contains(line, SEARCH_PATH@) {
        PUBLIC_SEARCH_PATH@
    } else {
        line
    }
}

/// The lines that are left of a dump.
pub open spec fn kept(lines: Seq<Seq<char>>) -> Seq<Seq<char>>
    decreases lines.len(),
{
    if lines.len() == 0 {
        Seq::empty()
    } else if is_command(lines.last()) {
        kept(lines.drop_last())
    } else {
        kept(lines.drop_last()).push(rewritten(lines.last()))
    }
}

/// What is run of a dump: its lines without the commands to the shell, with
/// the search path set to the public schema.
pub open spec fn cleaned(raw: Seq<char>) -> Seq<char> {
    text::join(kept(text::lines(raw)), "\n"@)
}

/// No command to the shell is left, and every line that is left was in the
/// dump or sets the search path to the public schema.
pub proof fn kept_lines(lines: Seq<Seq<char>>, i: int)
    requires
        0 <= i < kept(lines).len(),
    ensures
        !is_command(kept(lines)[i]),
        kept(lines)[i] == PUBLIC_SEARCH_PATH@ || lines.contains(kept(lines)[i]),
    decreases lines.len(),
{
    let init = lines.drop_last();
    let last = lines.last();
    if is_command(last) || i < kept(init).len() {
        kept_lines(init, i);
        if init.contains(kept(init)[i]) {
            let k = choose|k: int| 0 <= k < init.len() && init[k] == kept(init)[i];
            assert(lines[k] == kept(init)[i]);
        }
    } else {
        assert(lines[lines.len() - 1] == last);
        reveal_strlit("\\");
        reveal_strlit("SELECT pg_catalog.set_config('search_path', 'public', false);");
        if is_command(PUBLIC_SEARCH_PATH@) {
            assert("\\"@[0] == PUBLIC_SEARCH_PATH@[0]);
        }
    }
}

/// Nothing but the commands to the shell is left out: there are as many lines
/// left as lines that do not begin with a backslash, and each of them is that
/// line of the dump, unless that sets the search path.
pub proof fn only_commands_are_left_out(lines: Seq<Seq<char>>)
    ensures
        ({
            let runnable = lines.filter(|line: Seq<char>| !(line.len() > 0 && line[0] == '\\'));
            &&& kept(lines).len() == runnable.len()
            &&& forall|k: int|
                0 <= k < runnable.len() ==> {
                    let line = #[trigger] runnable[k];
                    let sets_path = exists|before: Seq<char>, after: Seq<char>|
                        #[trigger] (before + "set_config('search_path'"@ + after) == line;
                    kept(lines)[k] == if sets_path {
                        "SELECT pg_catalog.set_config('search_path', 'public', false);"@
                    } else {
                        line
                    }
                }
        }),
    decreases lines.len(),
{
    reveal(Seq::filter);
    reveal_strlit("\\");
    let f = |line: Seq<char>| !(line.len() > 0 && line[0] == '\\');
    let runnable = lines.filter(f);
    if lines.len() > 0 {
        let init = lines.drop_last();
        let last = lines.last();
        only_commands_are_left_out(init);
        let before = init.filter(f);
        let slash = "\\"@;
        if last.len() > 0 && last[0] == '\\' {
            assert(slash =~= last.subrange(0, 1));
            assert(is_command(last));
        } else {
            if is_command(last) {
                assert(slash[0] == last.subrange(0, 1)[0]);
            }
            assert(!is_command(last));
            text::contains_is_somewhere(last, SEARCH_PATH@);
            assert forall|k: int| 0 <= k < runnable.len() implies {
                let line = #[trigger] runnable[k];
                let sets_path = exists|before: Seq<char>, after: Seq<char>|
                    #[trigger] (before + "set_config('search_path'"@ + after) == line;
                kept(lines)[k] == if sets_path {
                    "SELECT pg_catalog.set_config('search_path', 'public', false);"@
                } else {
                    line
                }
            } by {
                if k < before.len() {
                    assert(runnable[k] == before[k]);
                }
            }
        }
    }
}

/// Whatever the dump, what is run of it are its lines, one after the other: all
/// but those that begin with a backslash, each as it is unless it sets the search
/// path.
pub proof fn any_dump_is_run_by_its_lines(raw: Seq<char>, script: Seq<Seq<char>>)
    requires
        ({
            let runnable = text::lines(raw).filter(
                |line: Seq<char>| !(line.len() > 0 && line[0] == '\\'),
            );
            &&& script.len() == runnable.len()
            &&& forall|k: int|
                0 <= k < runnable.len() ==> {
                    let line = #[trigger] runnable[k];
                    let sets_path = exists|before: Seq<char>, after: Seq<char>|
                        #[trigger] (before + "set_config('search_path'"@ + after) == line;
                    script[k] == if sets_path {
                        "SELECT pg_catalog.set_config('search_path', 'public', false);"@
                    } else {
                        line
                    }
                }
        }),
    ensures
        cleaned(raw) == text::join(script, seq!['\n']),
{
    reveal_strlit("\n");
    assert("\n"@ =~= seq!['\n']);
    let dump = text::lines(raw);
    only_commands_are_left_out(dump);
    let runnable = dump.filter(|line: Seq<char>| !(line.len() > 0 && line[0] == '\\'));
    assert forall|k: int| 0 <= k < script.len() implies kept(dump)[k] == script[k] by {
        let line = runnable[k];
    }
    assert(kept(dump) =~= script);
}

/// The lines of a dump are run one after the other as they stand, without those
/// that begin with a backslash and with the search path set to the public
/// schema.
pub proof fn dump_is_run_line_by_line(dump: Seq<Seq<char>>, script: Seq<Seq<char>>)
    requires
        dump.len() > 0,
        forall|i: int|
            0 <= i < dump.len() ==> !(#[trigger] dump[i]).contains('\n') && !(dump[i].len() > 0
                && dump[i].last() == '\r'),
        ({
            let runnable = dump.filter(|line: Seq<char>| !(line.len() > 0 && line[0] == '\\'));
            &&& script.len() == runnable.len()
            &&& forall|k: int|
                0 <= k < runnable.len() ==> {
                    let line = #[trigger] runnable[k];
                    let sets_path = exists|before: Seq<char>, after: Seq<char>|
                        #[trigger] (before + "set_config('search_path'"@ + after) == line;
                    script[k] == if sets_path {
                        "SELECT pg_catalog.set_config('search_path', 'public', false);"@
                    } else {
                        line
                    }
                }
        }),
    ensures
        cleaned(text::join(dump, seq!['\n']) + seq!['\n']) == text::join(script, seq!['\n']),
{
    text::lines_are_read_back(dump);
    any_dump_is_run_by_its_lines(text::join(dump, seq!['\n']) + seq!['\n'], script);
}

/// What is run of a dump.
pub fn clean(raw: &str) -> (sql: String)
    ensures
        sql@ == cleaned(raw@),
{
    let lines = text::lines_of(raw);
    let mut left: Vec<String> = Vec::new();
    let mut i: usize = 0;
    let ghost all = text::texts(lines@);
    assert(all.take(0) =~= Seq::empty());
    assert(text::texts(left@) =~= kept(all.take(0)));
    while i < lines.len()
        invariant
            i <= lines@.len(),
            all == text::texts(lines@),
            text::texts(left@) == kept(all.take(i as int)),
        decreases lines@.len() - i,
    {
        let ghost front = left@;
        assert(all.take(i + 1).drop_last() =~= all.take(i as int));
        if !text::starts_with(lines[i].as_str(), "\\") {
            if text::has(lines[i].as_str(), SEARCH_PATH) {
                left.push(PUBLIC_SEARCH_PATH.to_string());
            } else {
                left.push(lines[i].clone());
            }
            assert(text::texts(left@) =~= text::texts(front).push(rewritten(all[i as int])));
        }
        i += 1;
    }
    assert(all.take(i as int) =~= all);
    text::join_with(&left, "\n")
}

} // verus!
