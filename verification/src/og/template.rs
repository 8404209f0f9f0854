//! Texts with places for the values of a row.

use vstd::prelude::*;
use vstd::string::*;

use crate::text;

verus! {

/// The place of a field in a template.
pub open spec fn placeholder(name: Seq<char>) -> Seq<char> {
    "{{"@ + name + "}}"@
}

/// A template after the places of the first `n` fields were filled, one field
/// after the other.
pub open spec fn rendered(
    template: Seq<char>,
    row: Seq<(Seq<char>, Seq<char>)>,
    n: int,
) -> Seq<char>
    decreases n,
{
    if n <= 0 {
        template
    } else {
        text::replace(
            rendered(template, row, n - 1),
            placeholder(row[n - 1].0),
            row[n - 1].1,
        )
    }
}

/// A template with the places of all fields filled, in the order of the fields.
pub open spec fn render(template: Seq<char>, row: Seq<(Seq<char>, Seq<char>)>) -> Seq<char> {
    rendered(template, row, row.len() as int)
}

/// Fills the places of a template with the values of a row.
pub fn render_template(template: &str, row: &Vec<(String, String)>) -> (r: String)
    ensures
        r@ == render(template@, row.deep_view()),
{
    let mut r = template.to_string();
    let mut i: usize = 0;
    while i < row.len()
        invariant
            i <= row@.len(),
            r@ == rendered(template@, row.deep_view(), i as int),
        decreases row@.len() - i,
    {
        assert(row.deep_view()[i as int] == row@[i as int].deep_view());
        let place = String::from_str("{{").concat(row[i].0.as_str()).concat("}}");
        proof {
            reveal_strlit("{{");
        }
        r = text::replace_all(r.as_str(), place.as_str(), row[i].1.as_str());
        i += 1;
    }
    r
}

/// A template without a place for any of the fields stays as it is.
pub proof fn render_literal(template: Seq<char>, row: Seq<(Seq<char>, Seq<char>)>, n: int)
    requires
        0 <= n <= row.len(),
        forall|i: int|
            0 <= i < row.len() ==> !text::contains(template, placeholder((#[trigger] row[i]).0)),
    ensures
        rendered(template, row, n) == template,
    decreases n,
{
    if n > 0 {
        render_literal(template, row, n - 1);
        assert(!text::contains(template, placeholder(row[n - 1].0)));
        text::replace_absent(template, placeholder(row[n - 1].0), row[n - 1].1);
    }
}

/// A piece of a template.
#[verifier::ext_equal]
pub enum Piece {
    /// A text that stays.
    Text(Seq<char>),
    /// The place of a field.
    Place(Seq<char>),
}

/// How a piece is written.
pub open spec fn piece_text(piece: Piece) -> Seq<char> {
    match piece {
        Piece::Text(s) => s,
        Piece::Place(name) => placeholder(name),
    }
}

/// How the pieces of a template are written.
pub open spec fn written(pieces: Seq<Piece>) -> Seq<char>
    decreases pieces.len(),
{
    if pieces.len() == 0 {
        Seq::empty()
    } else {
        piece_text(pieces[0]) + written(pieces.skip(1))
    }
}

/// Whether a text holds no brace.
pub open spec fn is_plain(s: Seq<char>) -> bool {
    !s.contains('{') && !s.contains('}')
}

/// Whether no place begins in a text, whatever follows it.
pub open spec fn opens_nothing(s: Seq<char>) -> bool {
    forall|name: Seq<char>, rest: Seq<char>, i: int|
        #![trigger placeholder(name), (s + rest).skip(i)]
        is_plain(name) && 0 <= i < s.len() ==> !placeholder(name).is_prefix_of(
            (s + rest).skip(i),
        )
}

/// Whether places begin where the pieces have them and nowhere else.
pub open spec fn are_pieces(pieces: Seq<Piece>) -> bool {
    forall|i: int|
        0 <= i < pieces.len() ==> match #[trigger] pieces[i] {
            Piece::Text(s) => opens_nothing(s),
            Piece::Place(name) => is_plain(name),
        }
}

/// Whether the fields of a row have names without braces and values in which no
/// place begins.
pub open spec fn are_plain_fields(row: Seq<(Seq<char>, Seq<char>)>) -> bool {
    forall|i: int|
        0 <= i < row.len() ==> is_plain((#[trigger] row[i]).0) && opens_nothing(row[i].1)
}

/// The value of a name among the first `n` fields of a row: that of the first
/// field of the name.
pub open spec fn value_of(row: Seq<(Seq<char>, Seq<char>)>, name: Seq<char>, n: int) -> Option<
    Seq<char>,
>
    decreases n,
{
    if n <= 0 {
        None
    } else {
        match value_of(row, name, n - 1) {
            Some(value) => Some(value),
            None => if row[n - 1].0 == name {
                Some(row[n - 1].1)
            } else {
                None
            },
        }
    }
}

/// The pieces of a template with the first `n` fields of a row in their places;
/// every other place stays.
pub open spec fn filled(
    pieces: Seq<Piece>,
    row: Seq<(Seq<char>, Seq<char>)>,
    n: int,
) -> Seq<Piece> {
    pieces.map_values(
        |piece: Piece|
            match piece {
                Piece::Text(s) => Piece::Text(s),
                Piece::Place(name) => match value_of(row, name, n) {
                    Some(value) => Piece::Text(value),
                    None => Piece::Place(name),
                },
            },
    )
}

spec fn with_one(pieces: Seq<Piece>, name: Seq<char>, value: Seq<char>) -> Seq<Piece> {
    pieces.map_values(
        |piece: Piece|
            if piece == Piece::Place(name) {
                Piece::Text(value)
            } else {
                piece
            },
    )
}

/// A text without an opening brace opens nothing.
pub proof fn plain_opens_nothing(s: Seq<char>)
    requires
        !s.contains('{'),
    ensures
        opens_nothing(s),
{
    reveal_strlit("{{");
    assert forall|name: Seq<char>, rest: Seq<char>, i: int|
        #![trigger placeholder(name), (s + rest).skip(i)]
        is_plain(name) && 0 <= i < s.len() implies !placeholder(name).is_prefix_of(
        (s + rest).skip(i),
    ) by {
        let left = (s + rest).skip(i);
        let place = placeholder(name);
        if place.is_prefix_of(left) {
            assert(left[0] == left.subrange(0, place.len() as int)[0]);
            assert(left[0] == s[i]);
        }
    }
}

/// No place begins inside another one.
proof fn no_place_inside(m: Seq<char>, name: Seq<char>, rest: Seq<char>, i: int)
    requires
        is_plain(m),
        0 < i < placeholder(m).len(),
    ensures
        !placeholder(name).is_prefix_of((placeholder(m) + rest).skip(i)),
{
    reveal_strlit("{{");
    reveal_strlit("}}");
    let place = placeholder(name);
    let all = placeholder(m) + rest;
    let left = all.skip(i);
    if place.is_prefix_of(left) {
        let front = left.subrange(0, place.len() as int);
        assert(front[0] == left[0] && front[1] == left[1]);
        if i == 1 {
            assert(all[2] == '{');
            if m.len() > 0 {
                assert(all[2] == m[0]);
                assert(m.contains('{'));
            }
        } else {
            assert(all[i] == '{');
            if i - 2 < m.len() {
                assert(all[i] == m[i - 2]);
                assert(m.contains('{'));
            }
        }
    }
}

/// The place of one name is not that of another.
proof fn places_differ(m: Seq<char>, name: Seq<char>, rest: Seq<char>)
    requires
        is_plain(m),
        is_plain(name),
        m != name,
    ensures
        !placeholder(name).is_prefix_of(placeholder(m) + rest),
{
    reveal_strlit("{{");
    reveal_strlit("}}");
    let place = placeholder(name);
    let all = placeholder(m) + rest;
    if place.is_prefix_of(all) {
        let front = all.subrange(0, place.len() as int);
        assert forall|k: int| 0 <= k < place.len() implies #[trigger] place[k] == all[k] by {
            assert(front[k] == all[k]);
        }
        if name.len() < m.len() {
            assert(place[2 + name.len() as int] == '}');
            assert(all[2 + name.len() as int] == m[name.len() as int]);
            assert(m.contains('}'));
        } else if name.len() > m.len() {
            assert(place[2 + m.len() as int] == name[m.len() as int]);
            assert(all[2 + m.len() as int] == '}');
            assert(name.contains('}'));
        } else {
            assert forall|k: int| 0 <= k < m.len() implies m[k] == name[k] by {
                assert(place[2 + k] == name[k]);
                assert(all[2 + k] == m[k]);
            }
            assert(m =~= name);
        }
    }
}

/// Whether the place of a name begins where the pieces have it and nowhere else.
pub open spec fn stands_alone(pieces: Seq<Piece>, name: Seq<char>) -> bool {
    forall|i: int, k: int|
        #![trigger written(pieces.skip(i)).skip(k)]
        0 <= i < pieces.len() && 0 <= k < piece_text(pieces[i]).len() && placeholder(
            name,
        ).is_prefix_of(written(pieces.skip(i)).skip(k)) ==> k == 0 && pieces[i] == Piece::Place(
            name,
        )
}

/// Filling the places of one field.
proof fn fill_one(pieces: Seq<Piece>, name: Seq<char>, value: Seq<char>)
    requires
        stands_alone(pieces, name),
    ensures
        text::replace(written(pieces), placeholder(name), value) == written(
            with_one(pieces, name, value),
        ),
    decreases pieces.len(),
{
    reveal_strlit("{{");
    if pieces.len() > 0 {
        let tail = pieces.skip(1);
        let front = piece_text(pieces[0]);
        let rest = written(tail);
        let place = placeholder(name);
        assert forall|i: int, k: int|
            #![trigger written(tail.skip(i)).skip(k)]
            0 <= i < tail.len() && 0 <= k < piece_text(tail[i]).len() && place.is_prefix_of(
                written(tail.skip(i)).skip(k),
            ) implies k == 0 && tail[i] == Piece::Place(name) by {
            assert(tail.skip(i) =~= pieces.skip(i + 1));
            assert(tail[i] == pieces[i + 1]);
            assert(place.is_prefix_of(written(pieces.skip(i + 1)).skip(k)));
        }
        fill_one(tail, name, value);
        assert(with_one(pieces, name, value).skip(1) =~= with_one(tail, name, value));
        if pieces[0] == Piece::Place(name) {
            text::replace_front(rest, place, value);
        } else {
            assert(pieces.skip(0) =~= pieces);
            assert forall|k: int| 0 <= k < front.len() implies !place.is_prefix_of(
                #[trigger] (front + rest).skip(k),
            ) by {
                assert(written(pieces.skip(0)).skip(k) == (front + rest).skip(k));
            }
            text::replace_behind(front, rest, place, value);
        }
    }
}

/// A template is rendered as its pieces are filled: each place of a field gets
/// its value, and every other piece stays. This holds wherever filling makes no
/// new place out of what stood around another one.
pub proof fn render_fills(pieces: Seq<Piece>, row: Seq<(Seq<char>, Seq<char>)>, n: int)
    requires
        0 <= n <= row.len(),
        forall|j: int|
            0 <= j < n ==> stands_alone(filled(pieces, row, j), (#[trigger] row[j]).0),
    ensures
        rendered(written(pieces), row, n) == written(filled(pieces, row, n)),
    decreases n,
{
    if n > 0 {
        render_fills(pieces, row, n - 1);
        let before = filled(pieces, row, n - 1);
        let (name, value) = row[n - 1];
        assert(stands_alone(before, row[n - 1].0));
        fill_one(before, name, value);
        assert(with_one(before, name, value) =~= filled(pieces, row, n));
    } else {
        assert(filled(pieces, row, n) =~= pieces);
    }
}

/// Places stand alone where names hold no brace and no place begins in a text.
proof fn pieces_stand_alone(pieces: Seq<Piece>, name: Seq<char>)
    requires
        are_pieces(pieces),
        is_plain(name),
    ensures
        stands_alone(pieces, name),
{
    let place = placeholder(name);
    assert forall|i: int, k: int|
        #![trigger written(pieces.skip(i)).skip(k)]
        0 <= i < pieces.len() && 0 <= k < piece_text(pieces[i]).len() && place.is_prefix_of(
            written(pieces.skip(i)).skip(k),
        ) implies k == 0 && pieces[i] == Piece::Place(name) by {
        let all = pieces.skip(i);
        let rest = written(all.skip(1));
        assert(written(all) == piece_text(pieces[i]) + rest);
        match pieces[i] {
            Piece::Text(s) => {
                assert(opens_nothing(s));
                assert(!placeholder(name).is_prefix_of((s + rest).skip(k)));
            },
            Piece::Place(m) => {
                if k != 0 {
                    no_place_inside(m, name, rest, k);
                } else if m != name {
                    places_differ(m, name, rest);
                    assert((placeholder(m) + rest).skip(0) =~= placeholder(m) + rest);
                }
            },
        }
    }
}

proof fn value_is_plain(row: Seq<(Seq<char>, Seq<char>)>, name: Seq<char>, n: int)
    requires
        are_plain_fields(row),
        0 <= n <= row.len(),
    ensures
        value_of(row, name, n) matches Some(value) ==> opens_nothing(value),
    decreases n,
{
    if n > 0 {
        value_is_plain(row, name, n - 1);
    }
}

/// The same for fields whose names and values hold no brace, or values in which
/// at least no place begins, and a template of which the same is true between
/// its places.
pub proof fn render_fills_places(
    pieces: Seq<Piece>,
    row: Seq<(Seq<char>, Seq<char>)>,
    n: int,
)
    requires
        are_pieces(pieces),
        are_plain_fields(row),
        0 <= n <= row.len(),
    ensures
        rendered(written(pieces), row, n) == written(filled(pieces, row, n)),
{
    assert forall|j: int| 0 <= j < n implies stands_alone(
        filled(pieces, row, j),
        (#[trigger] row[j]).0,
    ) by {
        let before = filled(pieces, row, j);
        assert forall|i: int| 0 <= i < before.len() implies match #[trigger] before[i] {
            Piece::Text(s) => opens_nothing(s),
            Piece::Place(name) => is_plain(name),
        } by {
            match pieces[i] {
                Piece::Text(_) => {},
                Piece::Place(m) => {
                    value_is_plain(row, m, j);
                },
            }
        }
        pieces_stand_alone(before, row[j].0);
    }
    render_fills(pieces, row, n);
}

/// Whether no two fields have one name.
pub open spec fn own_names(row: Seq<(Seq<char>, Seq<char>)>) -> bool {
    forall|j: int, k: int|
        0 <= j < k < row.len() ==> (#[trigger] row[j]).0 != (#[trigger] row[k]).0
}

proof fn value_of_field(row: Seq<(Seq<char>, Seq<char>)>, name: Seq<char>, n: int)
    requires
        own_names(row),
        0 <= n <= row.len(),
    ensures
        forall|i: int| 0 <= i < n && (#[trigger] row[i]).0 == name ==> value_of(row, name, n)
            == Some(row[i].1),
        value_of(row, name, n) is Some ==> exists|i: int|
            0 <= i < n && (#[trigger] row[i]).0 == name,
    decreases n,
{
    if n > 0 {
        value_of_field(row, name, n - 1);
        if value_of(row, name, n) is Some && value_of(row, name, n - 1) is None {
            assert(row[n - 1].0 == name);
        }
        if row[n - 1].0 == name && value_of(row, name, n - 1) is Some {
            let i = choose|i: int| 0 <= i < n - 1 && (#[trigger] row[i]).0 == name;
            assert(row[i].0 != row[n - 1].0);
        }
    }
}

/// The order of the fields does not matter.
pub proof fn order_of_fields(
    pieces: Seq<Piece>,
    row: Seq<(Seq<char>, Seq<char>)>,
    other: Seq<(Seq<char>, Seq<char>)>,
)
    requires
        are_pieces(pieces),
        are_plain_fields(row),
        own_names(row),
        own_names(other),
        forall|field: (Seq<char>, Seq<char>)| #[trigger]
            row.contains(field) <==> other.contains(field),
    ensures
        render(written(pieces), row) == render(written(pieces), other),
{
    assert forall|i: int| 0 <= i < other.len() implies is_plain((#[trigger] other[i]).0)
        && opens_nothing(other[i].1) by {
        assert(row.contains(other[i]));
        let k = choose|k: int| 0 <= k < row.len() && row[k] == other[i];
        assert(is_plain(row[k].0));
    }
    let n = row.len() as int;
    let m = other.len() as int;
    render_fills_places(pieces, row, n);
    render_fills_places(pieces, other, m);
    assert forall|name: Seq<char>| #[trigger] value_of(row, name, n) == value_of(
        other,
        name,
        m,
    ) by {
        value_of_field(row, name, n);
        value_of_field(other, name, m);
        if value_of(row, name, n) is Some {
            let i = choose|i: int| 0 <= i < n && (#[trigger] row[i]).0 == name;
            assert(row.contains(row[i]));
            let k = choose|k: int| 0 <= k < other.len() && other[k] == row[i];
            assert(other[k].0 == name);
        }
        if value_of(other, name, m) is Some {
            let i = choose|i: int| 0 <= i < m && (#[trigger] other[i]).0 == name;
            assert(row.contains(other[i]));
            let k = choose|k: int| 0 <= k < row.len() && row[k] == other[i];
            assert(row[k].0 == name);
        }
    }
    assert(filled(pieces, row, n) =~= filled(pieces, other, m));
}

// ---------------------------------------------------------------------------
// Rows
// ---------------------------------------------------------------------------

/// Whether a column of this name stands at `from` or behind it.
pub open spec fn named_from(
    columns: Seq<(Seq<char>, Option<Seq<char>>)>,
    name: Seq<char>,
    from: int,
) -> bool {
    exists|i: int| from <= i < columns.len() && (#[trigger] columns[i]).0 == name
}

/// The value of a column; of one that holds no text it is empty.
pub open spec fn text_of(value: Option<Seq<char>>) -> Seq<char> {
    match value {
        Some(text) => text,
        None => Seq::empty(),
    }
}

/// The fields of the first `n` columns of a row: of columns of one name the
/// last of the row counts.
pub open spec fn fields_of(columns: Seq<(Seq<char>, Option<Seq<char>>)>, n: int) -> Seq<
    (Seq<char>, Seq<char>),
>
    decreases n,
{
    if n <= 0 {
        Seq::empty()
    } else if named_from(columns, columns[n - 1].0, n) {
        fields_of(columns, n - 1)
    } else {
        fields_of(columns, n - 1).push((columns[n - 1].0, text_of(columns[n - 1].1)))
    }
}

/// Whether a column of the same name stands behind the one at `i`.
fn repeated(columns: &Vec<(String, Option<String>)>, i: usize) -> (r: bool)
    requires
        i < columns@.len(),
    ensures
        r == named_from(columns.deep_view(), columns@[i as int].0@, i + 1),
{
    assert(i < columns.len());
    let mut k: usize = i + 1;
    let ghost all = columns.deep_view();
    while k < columns.len()
        invariant
            i < k <= columns@.len(),
            all == columns.deep_view(),
            forall|m: int| i < m < k ==> (#[trigger] all[m]).0 != columns@[i as int].0@,
        decreases columns@.len() - k,
    {
        assert(all[k as int] == columns@[k as int].deep_view());
        if text::same(columns[k].0.as_str(), columns[i].0.as_str()) {
            return true;
        }
        k += 1;
    }
    false
}

/// The fields of a row: of columns of one name the last counts, and one that
/// holds no text is empty.
pub fn fields(columns: &Vec<(String, Option<String>)>) -> (row: Vec<(String, String)>)
    ensures
        row.deep_view() == fields_of(columns.deep_view(), columns@.len() as int),
{
    let mut row: Vec<(String, String)> = Vec::new();
    let mut i: usize = 0;
    let ghost all = columns.deep_view();
    assert(row.deep_view() =~= fields_of(all, 0));
    while i < columns.len()
        invariant
            i <= columns@.len(),
            all == columns.deep_view(),
            row.deep_view() == fields_of(all, i as int),
        decreases columns@.len() - i,
    {
        assert(all[i as int] == columns@[i as int].deep_view());
        if !repeated(columns, i) {
            let ghost front = row.deep_view();
            let value = match &columns[i].1 {
                Some(value) => value.clone(),
                None => String::new(),
            };
            row.push((columns[i].0.clone(), value));
            assert(row.deep_view() =~= front.push((all[i as int].0, text_of(all[i as int].1))));
        }
        i += 1;
    }
    row
}

proof fn fields_from_columns(columns: Seq<(Seq<char>, Option<Seq<char>>)>, n: int, k: int)
    requires
        0 <= n <= columns.len(),
        0 <= k < fields_of(columns, n).len(),
    ensures
        exists|i: int|
            0 <= i < n && #[trigger] columns[i].0 == fields_of(columns, n)[k].0 && text_of(
                columns[i].1,
            ) == fields_of(columns, n)[k].1 && !named_from(columns, columns[i].0, i + 1),
    decreases n,
{
    if named_from(columns, columns[n - 1].0, n) || k < fields_of(columns, n - 1).len() {
        fields_from_columns(columns, n - 1, k);
    } else {
        assert(columns[n - 1].0 == fields_of(columns, n)[k].0);
    }
}

/// No two fields of a row have one name.
pub proof fn fields_are_distinct(
    columns: Seq<(Seq<char>, Option<Seq<char>>)>,
    n: int,
    j: int,
    k: int,
)
    requires
        0 <= n <= columns.len(),
        0 <= j < k < fields_of(columns, n).len(),
    ensures
        fields_of(columns, n)[j].0 != fields_of(columns, n)[k].0,
    decreases n,
{
    if named_from(columns, columns[n - 1].0, n) || k < fields_of(columns, n - 1).len() {
        fields_are_distinct(columns, n - 1, j, k);
    } else {
        fields_from_columns(columns, n - 1, j);
        let i = choose|i: int|
            0 <= i < n - 1 && #[trigger] columns[i].0 == fields_of(columns, n - 1)[j].0 && text_of(
                columns[i].1,
            ) == fields_of(columns, n - 1)[j].1 && !named_from(columns, columns[i].0, i + 1);
        if columns[i].0 == columns[n - 1].0 {
            assert(named_from(columns, columns[i].0, i + 1));
        }
    }
}

/// Every column of a row has a field, which holds the value of the last column
/// of its name.
pub proof fn every_column_has_a_field(
    columns: Seq<(Seq<char>, Option<Seq<char>>)>,
    n: int,
    i: int,
)
    requires
        0 <= i < n <= columns.len(),
        !named_from(columns, columns[i].0, i + 1),
    ensures
        fields_of(columns, n).contains((columns[i].0, text_of(columns[i].1))),
    decreases n,
{
    let row = fields_of(columns, n);
    let field = (columns[i].0, text_of(columns[i].1));
    if i == n - 1 {
        assert(row[row.len() - 1] == field);
    } else {
        every_column_has_a_field(columns, n - 1, i);
        let before = fields_of(columns, n - 1);
        let k = choose|k: int| 0 <= k < before.len() && before[k] == field;
        assert(row[k] == field);
    }
}

} // verus!
