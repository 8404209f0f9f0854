//! Text as sequences of characters: comparing, cutting, joining and replacing.
//!
//! The specification functions say what each operation yields on `Seq<char>`;
//! the executable functions work on `&str` and are proved to yield exactly that.

use vstd::prelude::*;
use vstd::string::*;

verus! {

// ---------------------------------------------------------------------------
// Models
// ---------------------------------------------------------------------------

/// The pieces of `s` between the occurrences of `sep`, reading left to right:
/// a separator opens a new piece, any other character extends the last one.
pub open spec fn split(s: Seq<char>, sep: char) -> Seq<Seq<char>>
    decreases s.len(),
{
    if s.len() == 0 {
        seq![Seq::<char>::empty()]
    } else {
        let before = split(s.drop_last(), sep);
        if s.last() == sep {
            before.push(Seq::empty())
        } else {
            before.drop_last().push(before.last().push(s.last()))
        }
    }
}

/// `parts` one after the other with `sep` between neighbours.
pub open spec fn join(parts: Seq<Seq<char>>, sep: Seq<char>) -> Seq<char>
    decreases parts.len(),
{
    if parts.len() == 0 {
        Seq::empty()
    } else if parts.len() == 1 {
        parts[0]
    } else {
        join(parts.drop_last(), sep) + sep + parts.last()
    }
}

/// `s` without the run of `c` that it starts with.
pub open spec fn trim_start(s: Seq<char>, c: char) -> Seq<char>
    decreases s.len(),
{
    if s.len() > 0 && s[0] == c {
        trim_start(s.skip(1), c)
    } else {
        s
    }
}

/// `s` without the run of `c` that it ends with.
pub open spec fn trim_end(s: Seq<char>, c: char) -> Seq<char>
    decreases s.len(),
{
    if s.len() > 0 && s.last() == c {
        trim_end(s.drop_last(), c)
    } else {
        s
    }
}

/// `s` without the runs of `c` at its two ends.
pub open spec fn trim(s: Seq<char>, c: char) -> Seq<char> {
    trim_end(trim_start(s, c), c)
}

/// How often `c` occurs in `s`.
pub open spec fn count(s: Seq<char>, c: char) -> nat
    decreases s.len(),
{
    if s.len() == 0 {
        0
    } else {
        count(s.drop_last(), c) + if s.last() == c {
            1nat
        } else {
            0nat
        }
    }
}

/// `s` with every occurrence of `pattern` replaced by `with`: occurrences are
/// taken from the left and do not overlap, and what was put in is not searched.
pub open spec fn replace(s: Seq<char>, pattern: Seq<char>, with: Seq<char>) -> Seq<char>
    decreases s.len(),
{
    if pattern.len() == 0 || s.len() < pattern.len() {
        s
    } else if pattern.is_prefix_of(s) {
        with + replace(s.skip(pattern.len() as int), pattern, with)
    } else {
        seq![s[0]] + replace(s.skip(1), pattern, with)
    }
}

/// Whether `pattern` occurs in `s`.
pub open spec fn contains(s: Seq<char>, pattern: Seq<char>) -> bool {
    exists|i: int| 0 <= i <= s.len() && pattern.is_prefix_of(#[trigger] s.skip(i))
}

/// Whether `a` comes before `b` or equals it, in the order of code points.
pub open spec fn text_le(a: Seq<char>, b: Seq<char>) -> bool
    decreases a.len(),
{
    if a.len() == 0 {
        true
    } else if b.len() == 0 {
        false
    } else if a[0] != b[0] {
        (a[0] as int) < (b[0] as int)
    } else {
        text_le(a.skip(1), b.skip(1))
    }
}

/// A line that ended with a line feed, without the carriage return before it.
pub open spec fn without_cr(line: Seq<char>) -> Seq<char> {
    if line.len() > 0 && line.last() == '\r' {
        line.drop_last()
    } else {
        line
    }
}

/// The lines of `s`: each ends with a line feed, with or without a carriage
/// return before it, and the last one need not end with either.
pub open spec fn lines(s: Seq<char>) -> Seq<Seq<char>> {
    let parts = split(s, '\n');
    let ended = parts.drop_last().map_values(|line: Seq<char>| without_cr(line));
    if parts.last().len() == 0 {
        ended
    } else {
        ended.push(parts.last())
    }
}

// ---------------------------------------------------------------------------
// Laws
// ---------------------------------------------------------------------------

/// Splitting yields at least one piece, no piece holds the separator, and
/// joining the pieces with the separator gives the text back.
pub proof fn split_join(s: Seq<char>, sep: char)
    ensures
        split(s, sep).len() > 0,
        forall|i: int| 0 <= i < split(s, sep).len() ==> !(#[trigger] split(s, sep)[i]).contains(sep),
        join(split(s, sep), seq![sep]) == s,
    decreases s.len(),
{
    if s.len() > 0 {
        let init = s.drop_last();
        split_join(init, sep);
        let before = split(init, sep);
        let after = split(s, sep);
        if s.last() == sep {
            assert(after.drop_last() =~= before);
            assert forall|i: int| 0 <= i < after.len() implies !(#[trigger] after[i]).contains(
                sep,
            ) by {
                if i < before.len() {
                    assert(after[i] == before[i]);
                }
            }
            assert(join(after, seq![sep]) =~= init + seq![sep]);
            assert(s =~= init + seq![sep]);
        } else {
            assert(after.drop_last() =~= before.drop_last());
            assert forall|i: int| 0 <= i < after.len() implies !(#[trigger] after[i]).contains(
                sep,
            ) by {
                if i < before.len() - 1 {
                    assert(after[i] == before[i]);
                } else {
                    let piece = before.last();
                    assert(!before[before.len() - 1].contains(sep));
                    assert forall|k: int| 0 <= k < after[i].len() implies after[i][k] != sep by {
                        if k < piece.len() {
                            assert(piece.contains(piece[k]));
                        }
                    }
                }
            }
            assert(join(after, seq![sep]) =~= join(before, seq![sep]).push(s.last()));
            assert(s =~= init.push(s.last()));
        }
    } else {
        assert(join(split(s, sep), seq![sep]) =~= s);
    }
}

/// Splitting yields one piece more than there are separators.
pub proof fn split_len(s: Seq<char>, sep: char)
    ensures
        split(s, sep).len() == count(s, sep) + 1,
    decreases s.len(),
{
    if s.len() > 0 {
        split_len(s.drop_last(), sep);
        split_join(s.drop_last(), sep);
    }
}

/// What stands before the first separator is the first piece, and the pieces of
/// the rest follow.
pub proof fn split_at_front(a: Seq<char>, rest: Seq<char>, sep: char)
    requires
        !a.contains(sep),
    ensures
        split(a + seq![sep] + rest, sep) == seq![a] + split(rest, sep),
        split(a, sep) == seq![a],
    decreases rest.len(),
{
    split_whole(a, sep);
    let s = a + seq![sep] + rest;
    if rest.len() == 0 {
        assert(s.drop_last() =~= a);
        assert(split(s, sep) =~= seq![a] + split(rest, sep));
    } else {
        let init = rest.drop_last();
        split_at_front(a, init, sep);
        split_join(init, sep);
        assert(s.drop_last() =~= a + seq![sep] + init);
        assert(split(s, sep) =~= seq![a] + split(rest, sep));
    }
}

proof fn split_whole(a: Seq<char>, sep: char)
    requires
        !a.contains(sep),
    ensures
        split(a, sep) == seq![a],
    decreases a.len(),
{
    if a.len() > 0 {
        let init = a.drop_last();
        assert(a[a.len() - 1] == a.last());
        assert forall|i: int| 0 <= i < init.len() implies init[i] != sep by {
            assert(a[i] == init[i]);
        }
        split_whole(init, sep);
        assert(a =~= init.push(a.last()));
        assert(split(a, sep) =~= seq![a]);
    } else {
        assert(a =~= Seq::empty());
    }
}

/// Pieces that do not hold the separator are what their join is split into.
pub proof fn join_split(parts: Seq<Seq<char>>, sep: char)
    requires
        parts.len() > 0,
        forall|i: int| 0 <= i < parts.len() ==> !(#[trigger] parts[i]).contains(sep),
    ensures
        split(join(parts, seq![sep]), sep) == parts,
    decreases parts.len(),
{
    assert(!parts[parts.len() - 1].contains(sep));
    if parts.len() == 1 {
        split_whole(parts[0], sep);
        assert(seq![parts[0]] =~= parts);
    } else {
        let init = parts.drop_last();
        assert forall|i: int| 0 <= i < init.len() implies !(#[trigger] init[i]).contains(sep) by {
            assert(init[i] == parts[i]);
        }
        join_split(init, sep);
        split_at_end(join(init, seq![sep]), parts.last(), sep);
        assert(init.push(parts.last()) =~= parts);
    }
}

proof fn split_at_end(a: Seq<char>, piece: Seq<char>, sep: char)
    requires
        !piece.contains(sep),
    ensures
        split(a + seq![sep] + piece, sep) == split(a, sep).push(piece),
    decreases piece.len(),
{
    let s = a + seq![sep] + piece;
    if piece.len() == 0 {
        assert(s.drop_last() =~= a);
        assert(piece =~= Seq::empty());
    } else {
        let init = piece.drop_last();
        assert(piece[piece.len() - 1] != sep);
        assert forall|i: int| 0 <= i < init.len() implies init[i] != sep by {
            assert(piece[i] == init[i]);
        }
        split_at_end(a, init, sep);
        assert(s.drop_last() =~= a + seq![sep] + init);
        assert(init.push(piece.last()) =~= piece);
        assert(split(a, sep).push(init).drop_last() =~= split(a, sep));
    }
}

/// The characters of a join are those of the separator and of the pieces.
pub proof fn join_holds(parts: Seq<Seq<char>>, sep: Seq<char>, c: char)
    ensures
        join(parts, sep).contains(c) ==> sep.contains(c) || exists|i: int|
            0 <= i < parts.len() && (#[trigger] parts[i]).contains(c),
        forall|i: int|
            0 <= i < parts.len() && (#[trigger] parts[i]).contains(c) ==> join(
                parts,
                sep,
            ).contains(c),
    decreases parts.len(),
{
    let s = join(parts, sep);
    if parts.len() == 1 {
        assert(parts[0].contains(c) <==> s.contains(c));
    } else if parts.len() > 1 {
        let init = parts.drop_last();
        let last = parts.last();
        assert(last == parts[parts.len() - 1]);
        let front = join(init, sep);
        join_holds(init, sep, c);
        if s.contains(c) {
            let k = choose|k: int| 0 <= k < s.len() && s[k] == c;
            if k < front.len() {
                assert(front[k] == c);
                if !sep.contains(c) {
                    let i = choose|i: int| 0 <= i < init.len() && (#[trigger] init[i]).contains(c);
                    assert(parts[i].contains(c));
                }
            } else if k < front.len() + sep.len() {
                assert(sep[k - front.len()] == c);
            } else {
                assert(last[k - front.len() - sep.len()] == c);
            }
        }
        assert forall|i: int| 0 <= i < parts.len() && (
        #[trigger] parts[i]).contains(c) implies s.contains(c) by {
            if i < init.len() {
                assert(init[i].contains(c));
                let k = choose|k: int| 0 <= k < front.len() && front[k] == c;
                assert(s[k] == c);
            } else {
                let k = choose|k: int| 0 <= k < last.len() && last[k] == c;
                assert(s[front.len() + sep.len() + k] == c);
            }
        }
    }
}

/// The order of texts is reflexive.
pub proof fn text_le_reflexive(a: Seq<char>)
    ensures
        text_le(a, a),
    decreases a.len(),
{
    if a.len() > 0 {
        text_le_reflexive(a.skip(1));
    }
}

/// Of two texts one comes first or they are equal, and both orders hold only
/// of equal texts.
pub proof fn text_le_total(a: Seq<char>, b: Seq<char>)
    ensures
        text_le(a, b) || text_le(b, a),
        text_le(a, b) && text_le(b, a) ==> a == b,
    decreases a.len(),
{
    if a.len() > 0 && b.len() > 0 {
        text_le_total(a.skip(1), b.skip(1));
        if a[0] == b[0] && a.skip(1) == b.skip(1) {
            assert(a =~= seq![a[0]] + a.skip(1));
            assert(b =~= seq![b[0]] + b.skip(1));
        }
        if a[0] != b[0] {
            assert(a[0] as int != b[0] as int);
        }
    } else if text_le(a, b) && text_le(b, a) {
        assert(a =~= b);
    }
}

/// The order of texts is transitive.
pub proof fn text_le_transitive(a: Seq<char>, b: Seq<char>, c: Seq<char>)
    requires
        text_le(a, b),
        text_le(b, c),
    ensures
        text_le(a, c),
    decreases a.len(),
{
    if a.len() > 0 && b.len() > 0 && c.len() > 0 && a[0] == b[0] && b[0] == c[0] {
        text_le_transitive(a.skip(1), b.skip(1), c.skip(1));
    }
}

/// Nothing changes where the pattern does not occur.
pub proof fn replace_absent(s: Seq<char>, pattern: Seq<char>, with: Seq<char>)
    requires
        !contains(s, pattern),
    ensures
        replace(s, pattern, with) == s,
    decreases s.len(),
{
    if pattern.len() > 0 && s.len() >= pattern.len() {
        assert(s.skip(0) =~= s);
        assert(!pattern.is_prefix_of(s.skip(0)));
        assert forall|i: int| 0 <= i <= s.skip(1).len() implies !pattern.is_prefix_of(
            #[trigger] s.skip(1).skip(i),
        ) by {
            assert(s.skip(1).skip(i) =~= s.skip(i + 1));
        }
        replace_absent(s.skip(1), pattern, with);
        assert(seq![s[0]] + s.skip(1) =~= s);
    }
}

/// Where no occurrence of `pattern` begins in the front of a text, the front
/// stays.
pub proof fn replace_behind(
    front: Seq<char>,
    rest: Seq<char>,
    pattern: Seq<char>,
    with: Seq<char>,
)
    requires
        forall|i: int|
            0 <= i < front.len() ==> !pattern.is_prefix_of(#[trigger] (front + rest).skip(i)),
    ensures
        replace(front + rest, pattern, with) == front + replace(rest, pattern, with),
    decreases front.len(),
{
    let s = front + rest;
    if front.len() == 0 {
        assert(s =~= rest);
        assert(front + replace(rest, pattern, with) =~= replace(rest, pattern, with));
    } else if pattern.len() == 0 || s.len() < pattern.len() {
        assert(replace(rest, pattern, with) == rest);
    } else {
        let less = front.skip(1);
        assert(s.skip(0) =~= s);
        assert(!pattern.is_prefix_of(s.skip(0)));
        assert(less + rest =~= s.skip(1));
        assert forall|i: int| 0 <= i < less.len() implies !pattern.is_prefix_of(
            #[trigger] (less + rest).skip(i),
        ) by {
            assert((less + rest).skip(i) =~= s.skip(i + 1));
        }
        replace_behind(less, rest, pattern, with);
        assert(seq![s[0]] + (less + replace(rest, pattern, with)) =~= front + replace(
            rest,
            pattern,
            with,
        ));
    }
}

/// An occurrence of `pattern` at the front of a text is replaced.
pub proof fn replace_front(rest: Seq<char>, pattern: Seq<char>, with: Seq<char>)
    requires
        pattern.len() > 0,
    ensures
        replace(pattern + rest, pattern, with) == with + replace(rest, pattern, with),
{
    let s = pattern + rest;
    assert(pattern =~= s.subrange(0, pattern.len() as int));
    assert(s.skip(pattern.len() as int) =~= rest);
}

/// `n` times the character `c`.
pub open spec fn repeated(c: char, n: nat) -> Seq<char> {
    Seq::new(n, |i: int| c)
}

/// What is trimmed at the two ends of a text does not count.
pub proof fn trim_ends(s: Seq<char>, c: char, before: nat, after: nat)
    ensures
        trim(repeated(c, before) + s + repeated(c, after), c) == trim(s, c),
    decreases before + after,
{
    let all = repeated(c, before) + s + repeated(c, after);
    if before > 0 {
        let less = repeated(c, (before - 1) as nat) + s + repeated(c, after);
        assert(all.skip(1) =~= less);
        assert(all[0] == c);
        trim_ends(s, c, (before - 1) as nat, after);
    } else if after > 0 {
        let less = repeated(c, before) + s + repeated(c, (after - 1) as nat);
        assert(all =~= less.push(c));
        trim_push(less, c);
        trim_ends(s, c, before, (after - 1) as nat);
    } else {
        assert(all =~= s);
    }
}

proof fn trim_push(s: Seq<char>, c: char)
    ensures
        trim(s.push(c), c) == trim(s, c),
    decreases s.len(),
{
    let more = s.push(c);
    if s.len() > 0 && s[0] == c {
        assert(more.skip(1) =~= s.skip(1).push(c));
        trim_push(s.skip(1), c);
    } else if s.len() > 0 {
        assert(more.drop_last() =~= s);
    } else {
        assert(more.skip(1) =~= s);
        assert(trim_start(more, c) == trim_start(s, c)) by {
            reveal_with_fuel(trim_start, 2);
        }
    }
}

/// A text of one line has that line, whether it is ended or not; an empty text
/// has none. A line that is ended by a line feed, with or without a carriage
/// return before it, comes first, and the lines of the rest follow.
pub proof fn lines_one_by_one(a: Seq<char>, rest: Seq<char>)
    requires
        !a.contains('\n'),
    ensures
        lines(Seq::empty()) == Seq::<Seq<char>>::empty(),
        a.len() > 0 ==> lines(a) == seq![a],
        a.len() == 0 || a.last() != '\r' ==> lines(a + seq!['\n'] + rest) == seq![a] + lines(rest),
        lines(a + seq!['\r', '\n'] + rest) == seq![a] + lines(rest),
{
    let none = Seq::<char>::empty();
    assert(lines(none) =~= Seq::<Seq<char>>::empty());
    split_at_front(a, rest, '\n');
    if a.len() > 0 {
        assert(seq![a].drop_last() =~= Seq::<Seq<char>>::empty());
        assert(lines(a) =~= seq![a]);
    }
    split_join(rest, '\n');
    line_first(a, rest);
    let b = a.push('\r');
    assert forall|i: int| 0 <= i < b.len() implies b[i] != '\n' by {
        if i < a.len() {
            assert(a.contains(a[i]));
        }
    }
    line_first(b, rest);
    assert(b.drop_last() =~= a);
    assert(a + seq!['\r', '\n'] + rest =~= b + seq!['\n'] + rest);
}

proof fn line_first(a: Seq<char>, rest: Seq<char>)
    requires
        !a.contains('\n'),
    ensures
        lines(a + seq!['\n'] + rest) == seq![without_cr(a)] + lines(rest),
{
    split_at_front(a, rest, '\n');
    split_join(rest, '\n');
    let parts = split(rest, '\n');
    let all = seq![a] + parts;
    assert(all.last() == parts.last());
    assert(all.drop_last() =~= seq![a] + parts.drop_last());
    assert(all.drop_last().map_values(|line: Seq<char>| without_cr(line)) =~= seq![without_cr(a)]
        + parts.drop_last().map_values(|line: Seq<char>| without_cr(line)));
    assert(lines(a + seq!['\n'] + rest) =~= seq![without_cr(a)] + lines(rest));
}

/// Lines that are ended one after the other are read back.
pub proof fn lines_are_read_back(parts: Seq<Seq<char>>)
    requires
        parts.len() > 0,
        forall|i: int|
            0 <= i < parts.len() ==> !(#[trigger] parts[i]).contains('\n') && !(parts[i].len() > 0
                && parts[i].last() == '\r'),
    ensures
        lines(join(parts, seq!['\n']) + seq!['\n']) == parts,
{
    let all = parts.push(Seq::empty());
    assert forall|i: int| 0 <= i < all.len() implies !(#[trigger] all[i]).contains('\n') by {
        if i < parts.len() {
            assert(all[i] == parts[i]);
        }
    }
    assert(all.drop_last() =~= parts);
    assert(join(all, seq!['\n']) =~= join(parts, seq!['\n']) + seq!['\n']);
    join_split(all, '\n');
    assert forall|i: int| 0 <= i < parts.len() implies without_cr(#[trigger] parts[i])
        == parts[i] by {}
    assert(parts.map_values(|line: Seq<char>| without_cr(line)) =~= parts);
}

/// Joining puts the separator between neighbours.
pub proof fn join_more(parts: Seq<Seq<char>>, last: Seq<char>, sep: Seq<char>)
    ensures
        join(Seq::empty(), sep) == Seq::<char>::empty(),
        join(seq![last], sep) == last,
        parts.len() > 0 ==> join(parts.push(last), sep) == join(parts, sep) + sep + last,
{
    assert(parts.push(last).drop_last() =~= parts);
}

/// What two texts have in common at the front does not matter for their order;
/// a text comes before every longer one that begins with it, and otherwise the
/// first character decides that is not the same.
pub proof fn text_le_decides(common: Seq<char>, a: Seq<char>, b: Seq<char>)
    ensures
        a.len() == 0 ==> text_le(common + a, common + b),
        a.len() > 0 && b.len() == 0 ==> !text_le(common + a, common + b),
        a.len() > 0 && b.len() > 0 && a[0] != b[0] ==> (text_le(common + a, common + b) <==> (
        a[0] as int) < (b[0] as int)),
    decreases common.len(),
{
    if common.len() == 0 {
        assert(common + a =~= a);
        assert(common + b =~= b);
    } else {
        let less = common.skip(1);
        text_le_decides(less, a, b);
        assert((common + a).skip(1) =~= less + a);
        assert((common + b).skip(1) =~= less + b);
    }
}

/// A text holds another one if and only if that stands somewhere in it.
pub proof fn contains_is_somewhere(s: Seq<char>, pattern: Seq<char>)
    ensures
        contains(s, pattern) <==> exists|before: Seq<char>, after: Seq<char>|
            #[trigger] (before + pattern + after) == s,
{
    if contains(s, pattern) {
        let i = choose|i: int| 0 <= i <= s.len() && pattern.is_prefix_of(#[trigger] s.skip(i));
        let before = s.take(i);
        let after = s.skip(i + pattern.len());
        assert(pattern =~= s.skip(i).subrange(0, pattern.len() as int));
        assert(before + pattern + after =~= s);
    }
    if exists|before: Seq<char>, after: Seq<char>| #[trigger] (before + pattern + after) == s {
        let (before, after) = choose|before: Seq<char>, after: Seq<char>|
            #[trigger] (before + pattern + after) == s;
        let i = before.len() as int;
        assert(s.skip(i).subrange(0, pattern.len() as int) =~= pattern);
        assert(pattern.is_prefix_of(s.skip(i)));
    }
}

/// Every occurrence of a character counts once.
pub proof fn count_one_by_one(s: Seq<char>, d: char, c: char)
    ensures
        count(Seq::empty(), c) == 0,
        count(s.push(d), c) == count(s, c) + if d == c {
            1int
        } else {
            0int
        },
{
    assert(s.push(d).drop_last() =~= s);
}

/// A text that neither begins nor ends with a character is not trimmed of it.
pub proof fn trim_stays(s: Seq<char>, c: char)
    requires
        s.len() == 0 || s[0] != c && s.last() != c,
    ensures
        trim(s, c) == s,
{
}

// ---------------------------------------------------------------------------
// Between strings and characters
// ---------------------------------------------------------------------------

/// `String::push` appends one character at the end.
pub assume_specification[ String::push ](s: &mut String, c: char)
    ensures
        final(s)@ == old(s)@.push(c),
;

/// The characters of `s`, in order.
pub fn chars_of(s: &str) -> (v: Vec<char>)
    ensures
        v@ == s@,
{
    let mut v: Vec<char> = Vec::new();
    for c in it: s.chars()
        invariant
            v@ == it.seq().take(it.index()),
    {
        v.push(c);
    }
    v
}

/// The characters of `v` from `from` up to `to` as a string.
pub fn string_of(v: &Vec<char>, from: usize, to: usize) -> (s: String)
    requires
        from <= to <= v@.len(),
    ensures
        s@ == v@.subrange(from as int, to as int),
{
    let mut s = String::new();
    let mut i: usize = from;
    while i < to
        invariant
            from <= i <= to <= v@.len(),
            s@ == v@.subrange(from as int, i as int),
        decreases to - i,
    {
        s.push(v[i]);
        i += 1;
        assert(v@.subrange(from as int, i as int) =~= v@.subrange(from as int, i - 1).push(
            v@[i - 1],
        ));
    }
    s
}

/// The texts of `parts`.
pub open spec fn texts(parts: Seq<String>) -> Seq<Seq<char>> {
    parts.map_values(|p: String| p@)
}

/// `String::from_utf8` of std: the text that bytes encode, if they are valid
/// UTF-8.
#[verifier::external_body]
pub(crate) fn from_utf8(bytes: Vec<u8>) -> (r: Option<String>)
    ensures
        r is Some <==> vstd::utf8::valid_utf8(bytes@),
        r matches Some(s) ==> s@ == vstd::utf8::decode_utf8(bytes@),
{
    String::from_utf8(bytes).ok()
}

// ---------------------------------------------------------------------------
// Comparing
// ---------------------------------------------------------------------------

/// Whether `a` and `b` are the same text.
pub fn same(a: &str, b: &str) -> (r: bool)
    ensures
        r == (a@ == b@),
{
    let x = chars_of(a);
    let y = chars_of(b);
    if x.len() != y.len() {
        return false;
    }
    let mut i: usize = 0;
    while i < x.len()
        invariant
            x@ == a@,
            y@ == b@,
            x@.len() == y@.len(),
            i <= x@.len(),
            forall|k: int| 0 <= k < i ==> x@[k] == y@[k],
        decreases x@.len() - i,
    {
        if x[i] != y[i] {
            return false;
        }
        i += 1;
    }
    assert(a@ =~= b@);
    true
}

/// Whether the characters `p` stand in `x` from position `at` on.
fn stands_at(x: &Vec<char>, p: &Vec<char>, at: usize) -> (r: bool)
    requires
        at <= x@.len(),
    ensures
        r == p@.is_prefix_of(x@.skip(at as int)),
{
    if p.len() > x.len() - at {
        return false;
    }
    let mut i: usize = 0;
    while i < p.len()
        invariant
            i <= p@.len(),
            at + p@.len() <= x.len(),
            forall|k: int| 0 <= k < i ==> x@[at + k] == p@[k],
        decreases p@.len() - i,
    {
        if x[at + i] != p[i] {
            assert(x@.skip(at as int).subrange(0, p@.len() as int)[i as int] != p@[i as int]);
            return false;
        }
        i += 1;
    }
    assert(p@ =~= x@.skip(at as int).subrange(0, p@.len() as int));
    true
}

/// Whether `s` starts with `prefix`.
pub fn starts_with(s: &str, prefix: &str) -> (r: bool)
    ensures
        r == prefix@.is_prefix_of(s@),
{
    let x = chars_of(s);
    assert(x@.skip(0) =~= s@);
    stands_at(&x, &chars_of(prefix), 0)
}

/// Whether `s` ends with `suffix`.
pub fn ends_with(s: &str, suffix: &str) -> (r: bool)
    ensures
        r == suffix@.is_suffix_of(s@),
{
    let x = chars_of(s);
    let p = chars_of(suffix);
    if p.len() > x.len() {
        return false;
    }
    let ghost tail = x@.skip(x@.len() - p@.len());
    assert(tail =~= s@.subrange(s@.len() - suffix@.len(), s@.len() as int));
    assert(tail.subrange(0, p@.len() as int) =~= tail);
    stands_at(&x, &p, x.len() - p.len())
}

/// Whether `pattern` occurs in `s`.
pub fn has(s: &str, pattern: &str) -> (r: bool)
    ensures
        r == contains(s@, pattern@),
{
    let x = chars_of(s);
    let p = chars_of(pattern);
    let mut i: usize = 0;
    loop
        invariant
            x@ == s@,
            p@ == pattern@,
            i <= x@.len(),
            forall|k: int| 0 <= k < i ==> !p@.is_prefix_of(#[trigger] x@.skip(k)),
        decreases x@.len() - i,
    {
        if stands_at(&x, &p, i) {
            return true;
        }
        if i == x.len() {
            return false;
        }
        i += 1;
    }
}

/// Whether `a` comes before `b` or equals it.
pub fn in_order(a: &str, b: &str) -> (r: bool)
    ensures
        r == text_le(a@, b@),
{
    let x = chars_of(a);
    let y = chars_of(b);
    let mut i: usize = 0;
    assert(x@.skip(0) =~= a@);
    assert(y@.skip(0) =~= b@);
    while i < x.len() && i < y.len()
        invariant
            x@ == a@,
            y@ == b@,
            i <= x@.len(),
            i <= y@.len(),
            text_le(a@, b@) == text_le(x@.skip(i as int), y@.skip(i as int)),
        decreases x@.len() - i,
    {
        if x[i] != y[i] {
            return x[i] < y[i];
        }
        assert(x@.skip(i as int).skip(1) =~= x@.skip(i + 1));
        assert(y@.skip(i as int).skip(1) =~= y@.skip(i + 1));
        i += 1;
    }
    i == x.len()
}

/// How often `c` occurs in `s`.
pub fn occurrences(s: &str, c: char) -> (n: usize)
    ensures
        n == count(s@, c),
{
    let x = chars_of(s);
    let mut n: usize = 0;
    let mut i: usize = 0;
    while i < x.len()
        invariant
            i <= x@.len(),
            n <= i,
            n == count(x@.take(i as int), c),
        decreases x@.len() - i,
    {
        assert(x@.take(i + 1).drop_last() =~= x@.take(i as int));
        if x[i] == c {
            n += 1;
        }
        i += 1;
    }
    assert(x@.take(i as int) =~= s@);
    n
}

// ---------------------------------------------------------------------------
// Cutting and joining
// ---------------------------------------------------------------------------

/// What follows `prefix` in `s`, if `s` starts with it.
pub fn strip_prefix(s: &str, prefix: &str) -> (r: Option<String>)
    ensures
        r is Some <==> prefix@.is_prefix_of(s@),
        r matches Some(rest) ==> rest@ == s@.skip(prefix@.len() as int),
{
    let x = chars_of(s);
    let p = chars_of(prefix);
    assert(x@.skip(0) =~= s@);
    if stands_at(&x, &p, 0) {
        let rest = string_of(&x, p.len(), x.len());
        assert(rest@ =~= s@.skip(prefix@.len() as int));
        Some(rest)
    } else {
        None
    }
}

/// The pieces of `s` between the occurrences of `sep`.
pub fn split_on(s: &str, sep: char) -> (parts: Vec<String>)
    ensures
        texts(parts@) == split(s@, sep),
        parts@.len() > 0,
{
    let x = chars_of(s);
    let mut parts: Vec<String> = Vec::new();
    let mut piece = String::new();
    let mut i: usize = 0;
    assert(x@.take(0) =~= Seq::empty());
    assert(texts(parts@).push(piece@) =~= split(x@.take(0), sep));
    while i < x.len()
        invariant
            i <= x@.len(),
            texts(parts@).push(piece@) == split(x@.take(i as int), sep),
        decreases x@.len() - i,
    {
        let ghost before = split(x@.take(i as int), sep);
        assert(x@.take(i + 1).drop_last() =~= x@.take(i as int));
        assert(before.drop_last() =~= texts(parts@));
        if x[i] == sep {
            let ghost front = parts@;
            let ghost done = piece@;
            parts.push(piece);
            assert(texts(parts@) =~= texts(front).push(done));
            piece = String::new();
        } else {
            piece.push(x[i]);
        }
        i += 1;
        assert(texts(parts@).push(piece@) =~= split(x@.take(i as int), sep));
    }
    assert(x@.take(i as int) =~= s@);
    let ghost front = parts@;
    parts.push(piece);
    assert(texts(parts@) =~= texts(front).push(piece@));
    parts
}

/// `parts` joined with `sep` between neighbours.
pub fn join_with(parts: &Vec<String>, sep: &str) -> (s: String)
    ensures
        s@ == join(texts(parts@), sep@),
{
    let mut s = String::new();
    let mut i: usize = 0;
    assert(texts(parts@).take(0) =~= Seq::empty());
    while i < parts.len()
        invariant
            i <= parts@.len(),
            s@ == join(texts(parts@).take(i as int), sep@),
        decreases parts@.len() - i,
    {
        let ghost next = texts(parts@).take(i + 1);
        assert(next.drop_last() =~= texts(parts@).take(i as int));
        if i > 0 {
            s.append(sep);
        }
        s.append(parts[i].as_str());
        assert(s@ =~= join(next, sep@));
        i += 1;
    }
    assert(texts(parts@).take(i as int) =~= texts(parts@));
    s
}

/// `s` without the runs of `c` at its two ends.
pub fn trim_char(s: &str, c: char) -> (r: String)
    ensures
        r@ == trim(s@, c),
{
    let x = chars_of(s);
    let mut from: usize = 0;
    assert(x@.skip(0) =~= s@);
    while from < x.len() && x[from] == c
        invariant
            x@ == s@,
            from <= x@.len(),
            trim_start(x@.skip(from as int), c) == trim_start(s@, c),
        decreases x@.len() - from,
    {
        assert(x@.skip(from as int).skip(1) =~= x@.skip(from + 1));
        from += 1;
    }
    assert(trim_start(s@, c) == x@.skip(from as int));
    let mut to: usize = x.len();
    assert(x@.subrange(from as int, to as int) =~= x@.skip(from as int));
    while to > from && x[to - 1] == c
        invariant
            from <= to <= x@.len(),
            trim_end(x@.subrange(from as int, to as int), c) == trim(s@, c),
        decreases to,
    {
        assert(x@.subrange(from as int, to as int).drop_last() =~= x@.subrange(
            from as int,
            to - 1,
        ));
        to -= 1;
    }
    string_of(&x, from, to)
}

/// The lines of `s`.
pub fn lines_of(s: &str) -> (r: Vec<String>)
    ensures
        texts(r@) == lines(s@),
{
    let parts = split_on(s, '\n');
    let mut r: Vec<String> = Vec::new();
    let ghost whole = split(s@, '\n');
    let last: usize = parts.len() - 1;
    let mut i: usize = 0;
    while i < last
        invariant
            i <= last,
            last == parts@.len() - 1,
            whole == texts(parts@),
            texts(r@) == whole.take(i as int).map_values(|line: Seq<char>| without_cr(line)),
        decreases last - i,
    {
        let x = chars_of(parts[i].as_str());
        let to: usize = if x.len() > 0 && x[x.len() - 1] == '\r' {
            x.len() - 1
        } else {
            x.len()
        };
        let line = string_of(&x, 0, to);
        assert(line@ =~= without_cr(whole[i as int]));
        let ghost front = r@;
        r.push(line);
        i += 1;
        assert(texts(r@) =~= texts(front).push(line@));
        assert(texts(r@) =~= whole.take(i as int).map_values(|line: Seq<char>| without_cr(line)));
    }
    assert(whole.take(i as int) =~= whole.drop_last());
    if !parts[last].as_str().is_empty() {
        let ghost front = r@;
        r.push(parts[last].clone());
        assert(texts(r@) =~= texts(front).push(whole.last()));
    }
    r
}

// ---------------------------------------------------------------------------
// Replacing
// ---------------------------------------------------------------------------

/// `s` with every occurrence of `pattern` replaced by `with`.
pub fn replace_all(s: &str, pattern: &str, with: &str) -> (r: String)
    requires
        pattern@.len() > 0,
    ensures
        r@ == replace(s@, pattern@, with@),
{
    let x = chars_of(s);
    let p = chars_of(pattern);
    let mut r = String::new();
    let mut i: usize = 0;
    assert(x@.skip(0) =~= s@);
    assert(r@ + replace(x@.skip(0), p@, with@) =~= replace(s@, p@, with@));
    while i < x.len()
        invariant
            x@ == s@,
            p@ == pattern@,
            p@.len() > 0,
            i <= x@.len(),
            r@ + replace(x@.skip(i as int), p@, with@) == replace(s@, p@, with@),
        decreases x@.len() - i,
    {
        let ghost rest = x@.skip(i as int);
        let ghost front = r@;
        if stands_at(&x, &p, i) {
            r.append(with);
            assert(rest.skip(p@.len() as int) =~= x@.skip(i + p@.len()));
            i += p.len();
            assert(r@ + replace(x@.skip(i as int), p@, with@) =~= front + replace(
                rest,
                p@,
                with@,
            ));
        } else {
            r.push(x[i]);
            assert(rest.skip(1) =~= x@.skip(i + 1));
            assert(replace(rest, p@, with@) =~= seq![rest[0]] + replace(rest.skip(1), p@, with@)) by {
                if rest.len() < p@.len() {
                    assert(replace(rest.skip(1), p@, with@) == rest.skip(1));
                    assert(rest =~= seq![rest[0]] + rest.skip(1));
                }
            }
            i += 1;
            assert(r@ + replace(x@.skip(i as int), p@, with@) =~= front + replace(
                rest,
                p@,
                with@,
            ));
        }
    }
    assert(x@.skip(i as int) =~= Seq::empty());
    assert(r@ + replace(x@.skip(i as int), p@, with@) =~= r@);
    r
}

} // verus!
