//! Where migration files and credentials are kept: the listing rule for SQL
//! files, the store interfaces and their in-memory implementations.

use vstd::hash_map::StringHashMap;
use vstd::prelude::*;
use vstd::string::*;

use crate::text;
use crate::text_map::TextMap;

verus! {

/// A SQL file in a store.
pub struct MigrationFile {
    pub key: String,
    pub filename: String,
}

/// What a [`MigrationFile`] holds.
#[verifier::ext_equal]
pub struct FileModel {
    pub key: Seq<char>,
    pub filename: Seq<char>,
}

impl DeepView for MigrationFile {
    type V = FileModel;

    open spec fn deep_view(&self) -> FileModel {
        FileModel { key: self.key@, filename: self.filename@ }
    }
}

// ---------------------------------------------------------------------------
// The listing rule
// ---------------------------------------------------------------------------

/// The file that a key names: its name is what follows the last `/`.
pub open spec fn file_of(key: Seq<char>) -> FileModel {
    FileModel { key, filename: text::split(key, '/').last() }
}

/// Whether `key` names a SQL file as deep in the tree as `prefix`, so that
/// files in directories below the prefix are left out.
pub open spec fn sql_at_depth(key: Seq<char>, prefix: Seq<char>) -> bool {
    ".sql"@.is_suffix_of(key) && text::count(key, '/') == text::count(prefix, '/')
}

/// The SQL files among `keys` at the depth of `prefix`, in the order of `keys`.
pub open spec fn sql_among(keys: Seq<Seq<char>>, prefix: Seq<char>) -> Seq<FileModel> {
    keys.filter(|key: Seq<char>| sql_at_depth(key, prefix)).map_values(
        |key: Seq<char>| file_of(key),
    )
}

/// The files of the given name, in order.
pub open spec fn named(files: Seq<FileModel>, name: Seq<char>) -> Seq<FileModel> {
    files.filter(|f: FileModel| f.filename == name)
}

/// Whether the files stand in the order of their names.
pub open spec fn by_name(files: Seq<FileModel>) -> bool {
    forall|i: int, j: int|
        0 <= i <= j < files.len() ==> text::text_le(
            (#[trigger] files[i]).filename,
            (#[trigger] files[j]).filename,
        )
}

/// Whether `sorted` holds the files of `files` in the order of their names,
/// files of one name staying in the order they had.
pub open spec fn sorted_by_name(sorted: Seq<FileModel>, files: Seq<FileModel>) -> bool {
    &&& by_name(sorted)
    &&& forall|name: Seq<char>| #[trigger] named(sorted, name) == named(files, name)
}

/// Whether `key` is listed under `prefix`: it starts with the prefix and names
/// a SQL file directly under it.
pub open spec fn is_listed(key: Seq<char>, prefix: Seq<char>) -> bool {
    prefix.is_prefix_of(key) && sql_at_depth(key, prefix)
}

/// Whether `files` lists what a store with the given contents has directly
/// under `prefix`: every such file once, in strictly ascending order of names.
pub open spec fn is_listing(
    files: Seq<FileModel>,
    contents: Map<Seq<char>, Seq<char>>,
    prefix: Seq<char>,
) -> bool {
    &&& forall|i: int|
        0 <= i < files.len() ==> {
            let file = #[trigger] files[i];
            &&& contents.contains_key(file.key)
            &&& is_listed(file.key, prefix)
            &&& file == file_of(file.key)
        }
    &&& forall|key: Seq<char>|
        #![trigger contents.contains_key(key)]
        contents.contains_key(key) && is_listed(key, prefix) ==> files.contains(file_of(key))
    &&& forall|i: int, j: int|
        0 <= i < j < files.len() ==> {
            &&& text::text_le((#[trigger] files[i]).filename, (#[trigger] files[j]).filename)
            &&& files[i].filename != files[j].filename
        }
}

// ---------------------------------------------------------------------------
// Laws of the listing
// ---------------------------------------------------------------------------

proof fn named_step(files: Seq<FileModel>, name: Seq<char>)
    requires
        files.len() > 0,
    ensures
        named(files, name) == if files.last().filename == name {
            named(files.drop_last(), name).push(files.last())
        } else {
            named(files.drop_last(), name)
        },
{
    reveal(Seq::filter);
}

proof fn named_nothing(name: Seq<char>)
    ensures
        named(Seq::empty(), name) == Seq::<FileModel>::empty(),
{
    reveal(Seq::filter);
}

proof fn sql_among_step(keys: Seq<Seq<char>>, prefix: Seq<char>)
    requires
        keys.len() > 0,
    ensures
        sql_among(keys, prefix) == if sql_at_depth(keys.last(), prefix) {
            sql_among(keys.drop_last(), prefix).push(file_of(keys.last()))
        } else {
            sql_among(keys.drop_last(), prefix)
        },
{
    reveal(Seq::filter);
    let init = sql_among(keys.drop_last(), prefix);
    if sql_at_depth(keys.last(), prefix) {
        assert(sql_among(keys, prefix) =~= init.push(file_of(keys.last())));
    } else {
        assert(sql_among(keys, prefix) =~= init);
    }
}

proof fn sql_among_nothing(prefix: Seq<char>)
    ensures
        sql_among(Seq::empty(), prefix) == Seq::<FileModel>::empty(),
{
    reveal(Seq::filter);
    assert(sql_among(Seq::empty(), prefix) =~= Seq::<FileModel>::empty());
}

proof fn filter_keeps(files: Seq<FileModel>, name: Seq<char>, f: FileModel)
    ensures
        named(files, name).contains(f) <==> files.contains(f) && f.filename == name,
    decreases files.len(),
{
    if files.len() == 0 {
        assert(files =~= Seq::empty());
        named_nothing(name);
    } else {
        filter_keeps(files.drop_last(), name, f);
        named_step(files, name);
        let rest = named(files.drop_last(), name);
        if files.contains(f) && !files.drop_last().contains(f) {
            let i = choose|i: int| 0 <= i < files.len() && files[i] == f;
            if i < files.len() - 1 {
                assert(files.drop_last()[i] == f);
            }
        }
        if files.drop_last().contains(f) {
            let i = choose|i: int| 0 <= i < files.drop_last().len() && files.drop_last()[i] == f;
            assert(files[i] == f);
        }
        if files.last().filename == name {
            assert(named(files, name) == rest.push(files.last()));
            if rest.contains(f) {
                let i = choose|i: int| 0 <= i < rest.len() && rest[i] == f;
                assert(rest.push(files.last())[i] == f);
            }
            if named(files, name).contains(f) {
                let i = choose|i: int|
                    0 <= i < named(files, name).len() && named(files, name)[i] == f;
                if i < rest.len() {
                    assert(rest[i] == f);
                } else {
                    assert(files[files.len() - 1] == f);
                }
            }
            if f == files.last() {
                assert(rest.push(files.last())[rest.len() as int] == f);
            }
        } else {
            assert(named(files, name) == rest);
        }
    }
}

proof fn filter_concat(a: Seq<FileModel>, b: Seq<FileModel>, name: Seq<char>)
    ensures
        named(a + b, name) == named(a, name) + named(b, name),
    decreases b.len(),
{
    if b.len() == 0 {
        assert(a + b =~= a);
        assert(b =~= Seq::empty());
        named_nothing(name);
        assert(named(a, name) + named(b, name) =~= named(a, name));
    } else {
        assert((a + b).drop_last() =~= a + b.drop_last());
        filter_concat(a, b.drop_last(), name);
        named_step(a + b, name);
        named_step(b, name);
        assert((a + b).last() == b.last());
        if b.last().filename == name {
            assert(named(a + b, name) =~= named(a, name) + named(b, name));
        }
    }
}

/// Sorting by name keeps exactly the files that were there.
pub proof fn sorted_same_files(sorted: Seq<FileModel>, files: Seq<FileModel>, f: FileModel)
    requires
        sorted_by_name(sorted, files),
    ensures
        sorted.contains(f) <==> files.contains(f),
{
    assert(named(sorted, f.filename) == named(files, f.filename));
    filter_keeps(sorted, f.filename, f);
    filter_keeps(files, f.filename, f);
}

/// What a key is without its last `/` and what follows it, and the name that
/// follows, make up the key again.
proof fn directory_and_name(key: Seq<char>)
    ensures
        text::count(key, '/') == 0 ==> file_of(key).filename == key,
        text::count(key, '/') > 0 ==> exists|dir: Seq<char>|
            #[trigger] (dir + seq!['/'] + file_of(key).filename) == key && text::count(dir, '/')
                == text::count(key, '/') - 1,
{
    text::split_join(key, '/');
    text::split_len(key, '/');
    let parts = text::split(key, '/');
    if parts.len() == 1 {
        assert(parts.last() == parts[0]);
    } else {
        let dir = text::join(parts.drop_last(), seq!['/']);
        assert(dir + seq!['/'] + parts.last() == key);
        count_concat(dir, seq!['/'], '/');
        count_concat(dir + seq!['/'], parts.last(), '/');
        count_none(parts.last(), '/');
        assert(!parts[parts.len() - 1].contains('/'));
        assert(seq!['/'].drop_last() =~= Seq::<char>::empty());
        assert(text::count(seq!['/'].drop_last(), '/') == 0);
        assert(text::count(seq!['/'], '/') == 1);
        assert((dir + seq!['/'] + file_of(key).filename) == key && text::count(dir, '/')
            == text::count(key, '/') - 1);
    }
}

proof fn count_concat(a: Seq<char>, b: Seq<char>, c: char)
    ensures
        text::count(a + b, c) == text::count(a, c) + text::count(b, c),
    decreases b.len(),
{
    if b.len() == 0 {
        assert(a + b =~= a);
    } else {
        assert((a + b).drop_last() =~= a + b.drop_last());
        count_concat(a, b.drop_last(), c);
    }
}

proof fn count_none(s: Seq<char>, c: char)
    ensures
        text::count(s, c) == 0 <==> !s.contains(c),
    decreases s.len(),
{
    if s.len() > 0 {
        count_none(s.drop_last(), c);
        if s.contains(c) {
            let i = choose|i: int| 0 <= i < s.len() && s[i] == c;
            if i < s.len() - 1 {
                assert(s.drop_last()[i] == c);
            }
        }
        if s.last() == c {
            assert(s[s.len() - 1] == c);
        }
        if s.drop_last().contains(c) {
            let i = choose|i: int| 0 <= i < s.drop_last().len() && s.drop_last()[i] == c;
            assert(s[i] == c);
        }
    }
}

/// A file listed under a prefix has the prefix up to its last `/` as its
/// directory, so two of them with one name are one file.
pub proof fn listed_name_determines_key(a: Seq<char>, b: Seq<char>, prefix: Seq<char>)
    requires
        is_listed(a, prefix),
        is_listed(b, prefix),
        file_of(a).filename == file_of(b).filename,
    ensures
        a == b,
{
    directory_and_name(a);
    directory_and_name(b);
    let n = text::count(prefix, '/');
    if n > 0 {
        let da = choose|dir: Seq<char>|
            #[trigger] (dir + seq!['/'] + file_of(a).filename) == a && text::count(dir, '/') == n
                - 1;
        let db = choose|dir: Seq<char>|
            #[trigger] (dir + seq!['/'] + file_of(b).filename) == b && text::count(dir, '/') == n
                - 1;
        directory_in_prefix(a, da, prefix);
        directory_in_prefix(b, db, prefix);
        let ka = da.len() as int;
        let kb = db.len() as int;
        assert(prefix.take(ka) =~= da);
        assert(prefix.take(kb) =~= db);
        assert(prefix[ka] == '/' && prefix[kb] == '/');
        if ka < kb {
            assert(db =~= prefix.take(ka) + prefix.subrange(ka, kb));
            count_concat(prefix.take(ka), prefix.subrange(ka, kb), '/');
            count_none(prefix.subrange(ka, kb), '/');
            assert(prefix.subrange(ka, kb)[0] == '/');
        }
        if kb < ka {
            assert(da =~= prefix.take(kb) + prefix.subrange(kb, ka));
            count_concat(prefix.take(kb), prefix.subrange(kb, ka), '/');
            count_none(prefix.subrange(kb, ka), '/');
            assert(prefix.subrange(kb, ka)[0] == '/');
        }
    }
}

proof fn directory_in_prefix(key: Seq<char>, dir: Seq<char>, prefix: Seq<char>)
    requires
        prefix.is_prefix_of(key),
        text::count(key, '/') == text::count(prefix, '/'),
        text::count(dir, '/') == text::count(prefix, '/') - 1,
        dir.len() < key.len(),
        key.take(dir.len() as int) == dir || dir.is_prefix_of(key),
        key[dir.len() as int] == '/',
    ensures
        dir.len() < prefix.len(),
        prefix[dir.len() as int] == '/',
        dir.is_prefix_of(prefix),
{
    let n = dir.len() as int;
    assert(key.take(n) =~= dir);
    let tail = key.skip(prefix.len() as int);
    assert(key =~= prefix + tail);
    count_concat(prefix, tail, '/');
    count_none(tail, '/');
    if n >= prefix.len() {
        assert(tail[n - prefix.len()] == '/');
    }
    assert(prefix =~= key.take(prefix.len() as int));
    assert(dir =~= prefix.subrange(0, n));
}

/// The name of a file is what follows the last slash of its key.
pub proof fn name_follows_the_last_slash(dir: Seq<char>, name: Seq<char>)
    requires
        !name.contains('/'),
    ensures
        file_of(dir + seq!['/'] + name).filename == name,
        file_of(dir + seq!['/'] + name).key == dir + seq!['/'] + name,
        file_of(name).filename == name,
        file_of(name).key == name,
{
    let key = dir + seq!['/'] + name;
    count_none(name, '/');
    directory_and_name(name);
    count_concat(dir + seq!['/'], name, '/');
    count_concat(dir, seq!['/'], '/');
    assert(seq!['/'].drop_last() =~= Seq::<char>::empty());
    assert(text::count(seq!['/'].drop_last(), '/') == 0);
    assert(text::count(seq!['/'], '/') == 1);
    directory_and_name(key);
    let found = file_of(key).filename;
    let d = choose|d: Seq<char>|
        #[trigger] (d + seq!['/'] + found) == key && text::count(d, '/') == text::count(key, '/')
            - 1;
    let all = d + seq!['/'] + found;
    if d.len() < dir.len() {
        assert(key[dir.len() as int] == '/');
        assert(all[dir.len() as int] == found[dir.len() - d.len() - 1]);
        assert(found.contains('/'));
        text::split_join(key, '/');
        let parts = text::split(key, '/');
        assert(!parts[parts.len() - 1].contains('/'));
    } else if d.len() > dir.len() {
        assert(all[d.len() as int] == '/');
        assert(key[d.len() as int] == name[d.len() - dir.len() - 1]);
        assert(name.contains('/'));
    } else {
        assert(found =~= all.skip(d.len() as int + 1));
        assert(name =~= key.skip(dir.len() as int + 1));
    }
}

/// What a directory lists is what ends with `.sql` directly in it.
pub proof fn a_directory_lists_its_sql_files(dir: Seq<char>, name: Seq<char>)
    ensures
        ({
            let prefix = dir + seq!['/'];
            is_listed(prefix + name, prefix) <==> !name.contains('/') && exists|stem: Seq<char>|
                #[trigger] (stem + ".sql"@) == name
        }),
{
    reveal_strlit(".sql");
    let prefix = dir + seq!['/'];
    let key = prefix + name;
    let end = ".sql"@;
    assert(prefix =~= key.subrange(0, prefix.len() as int));
    count_concat(prefix, name, '/');
    count_none(name, '/');
    if end.is_suffix_of(key) {
        assert(end =~= key.subrange(key.len() - 4, key.len() as int));
        if name.len() < 4 {
            let k = 3 - name.len();
            assert(key[prefix.len() - 1] == '/');
            assert(key.subrange(key.len() - 4, key.len() as int)[k] == key[prefix.len() - 1]);
            assert(end[k] != '/');
        } else {
            let stem = name.take(name.len() - 4);
            assert(name.skip(name.len() - 4) =~= end);
            assert(stem + end =~= name);
        }
    }
    if exists|stem: Seq<char>| #[trigger] (stem + end) == name {
        let stem = choose|stem: Seq<char>| #[trigger] (stem + end) == name;
        assert(key.subrange(key.len() - 4, key.len() as int) =~= end);
    }
}

/// A listing of a directory holds its SQL files and nothing else, each under its
/// key and its name, in the order of their names.
pub proof fn a_listing_is_complete_and_in_order(
    files: Seq<FileModel>,
    contents: Map<Seq<char>, Seq<char>>,
    dir: Seq<char>,
    stem: Seq<char>,
    i: int,
    j: int,
)
    requires
        is_listing(files, contents, dir + seq!['/']),
        !stem.contains('/'),
    ensures
        ({
            let name = stem + ".sql"@;
            let key = dir + seq!['/'] + name;
            files.contains(FileModel { key, filename: name }) <==> contents.contains_key(key)
        }),
        0 <= i < files.len() ==> {
            &&& contents.contains_key(files[i].key)
            &&& files[i].key == dir + seq!['/'] + files[i].filename
            &&& !files[i].filename.contains('/')
            &&& exists|s: Seq<char>| #[trigger] (s + ".sql"@) == files[i].filename
        },
        0 <= i < j < files.len() ==> text::text_le(files[i].filename, files[j].filename)
            && files[i].filename != files[j].filename,
{
    reveal_strlit(".sql");
    let prefix = dir + seq!['/'];
    let name = stem + ".sql"@;
    let key = prefix + name;
    assert forall|k: int| 0 <= k < name.len() implies name[k] != '/' by {
        if k < stem.len() {
            assert(stem.contains(stem[k]));
        }
    }
    a_directory_lists_its_sql_files(dir, name);
    name_follows_the_last_slash(dir, name);
    if files.contains(FileModel { key, filename: name }) {
        let k = choose|k: int|
            0 <= k < files.len() && files[k] == (FileModel { key, filename: name });
        assert(contents.contains_key(files[k].key));
    }
    if 0 <= i < files.len() {
        let file = files[i];
        let rest = file.key.skip(prefix.len() as int);
        assert(prefix =~= file.key.subrange(0, prefix.len() as int));
        assert(prefix + rest =~= file.key);
        a_directory_lists_its_sql_files(dir, rest);
        name_follows_the_last_slash(dir, rest);
    }
}

/// The files among keys are those that end with `.sql` and have as many slashes as
/// the prefix, in the order of the keys; sorting puts them in the order of their
/// names and keeps them all.
pub proof fn files_among_keys(
    keys: Seq<Seq<char>>,
    last: Seq<char>,
    prefix: Seq<char>,
    sorted: Seq<FileModel>,
    file: FileModel,
    i: int,
    j: int,
)
    ensures
        sql_among(Seq::empty(), prefix) == Seq::<FileModel>::empty(),
        sql_among(keys.push(last), prefix) == if last.len() >= 4 && last.skip(last.len() - 4)
            == ".sql"@ && text::count(last, '/') == text::count(prefix, '/') {
            sql_among(keys, prefix).push(file_of(last))
        } else {
            sql_among(keys, prefix)
        },
        sorted_by_name(sorted, sql_among(keys, prefix)) ==> {
            &&& sorted.contains(file) <==> sql_among(keys, prefix).contains(file)
            &&& 0 <= i <= j < sorted.len() ==> text::text_le(
                sorted[i].filename,
                sorted[j].filename,
            )
        },
{
    reveal_strlit(".sql");
    sql_among_nothing(prefix);
    sql_among_step(keys.push(last), prefix);
    assert(keys.push(last).drop_last() =~= keys);
    if last.len() >= 4 {
        assert(last.skip(last.len() - 4) =~= last.subrange(last.len() - 4, last.len() as int));
    }
    if sorted_by_name(sorted, sql_among(keys, prefix)) {
        sorted_same_files(sorted, sql_among(keys, prefix), file);
    }
}

/// A store has one listing under a prefix.
pub proof fn listing_unique(
    a: Seq<FileModel>,
    b: Seq<FileModel>,
    contents: Map<Seq<char>, Seq<char>>,
    prefix: Seq<char>,
)
    requires
        is_listing(a, contents, prefix),
        is_listing(b, contents, prefix),
    ensures
        a == b,
    decreases a.len(),
{
    assert forall|f: FileModel| a.contains(f) <==> b.contains(f) by {
        if a.contains(f) {
            let i = choose|i: int| 0 <= i < a.len() && a[i] == f;
            assert(contents.contains_key(a[i].key));
        }
        if b.contains(f) {
            let i = choose|i: int| 0 <= i < b.len() && b[i] == f;
            assert(contents.contains_key(b[i].key));
        }
    }
    ascending_unique(a, b);
}

/// A store with finitely many files has a listing under every prefix.
pub proof fn listing_exists(contents: Map<Seq<char>, Seq<char>>, prefix: Seq<char>)
    requires
        contents.dom().finite(),
    ensures
        exists|files: Seq<FileModel>| is_listing(files, contents, prefix),
{
    let files = listing_of_keys(contents.dom(), prefix);
    assert(is_listing(files, contents, prefix));
}

/// Whether `files` are the files of `keys` listed under the prefix.
spec fn lists(files: Seq<FileModel>, keys: Set<Seq<char>>, prefix: Seq<char>) -> bool {
    &&& forall|i: int|
        0 <= i < files.len() ==> {
            let file = #[trigger] files[i];
            &&& keys.contains(file.key)
            &&& is_listed(file.key, prefix)
            &&& file == file_of(file.key)
        }
    &&& forall|key: Seq<char>|
        #![trigger keys.contains(key)]
        keys.contains(key) && is_listed(key, prefix) ==> files.contains(file_of(key))
    &&& ascending(files)
}

proof fn listing_of_keys(keys: Set<Seq<char>>, prefix: Seq<char>) -> (files: Seq<FileModel>)
    requires
        keys.finite(),
    ensures
        lists(files, keys, prefix),
    decreases keys.len(),
{
    if keys.len() == 0 {
        assert(forall|key: Seq<char>| !keys.contains(key)) by {
            assert(keys =~= Set::empty());
        }
        Seq::empty()
    } else {
        let key = keys.choose();
        let rest = keys.remove(key);
        let files = listing_of_keys(rest, prefix);
        if is_listed(key, prefix) {
            let file = file_of(key);
            let at = place_for(files, file.filename, 0);
            place_is_right(files, file.filename, 0);
            let more = files.insert(at, file);
            assert forall|i: int| 0 <= i < files.len() implies (#[trigger] files[i]).filename
                != file.filename by {
                if files[i].filename == file.filename {
                    listed_name_determines_key(files[i].key, key, prefix);
                }
            }
            assert forall|i: int, j: int| 0 <= i < j < more.len() implies {
                &&& text::text_le((#[trigger] more[i]).filename, (#[trigger] more[j]).filename)
                &&& more[i].filename != more[j].filename
            } by {
                let a = if i < at {
                    i
                } else {
                    i - 1
                };
                let b = if j < at {
                    j
                } else {
                    j - 1
                };
                if i == at {
                    assert(more[j] == files[b]);
                    if b > at {
                        text::text_le_transitive(
                            file.filename,
                            files[at].filename,
                            files[b].filename,
                        );
                    }
                } else if j == at {
                    assert(more[i] == files[i]);
                } else {
                    assert(more[i] == files[a] && more[j] == files[b]);
                }
            }
            assert forall|k: Seq<char>| #[trigger] keys.contains(k) && is_listed(
                k,
                prefix,
            ) implies more.contains(file_of(k)) by {
                if k == key {
                    assert(more[at] == file);
                } else {
                    assert(rest.contains(k));
                    let i = choose|i: int| 0 <= i < files.len() && files[i] == file_of(k);
                    if i < at {
                        assert(more[i] == file_of(k));
                    } else {
                        assert(more[i + 1] == file_of(k));
                    }
                }
            }
            assert forall|i: int| 0 <= i < more.len() implies {
                let f = #[trigger] more[i];
                &&& keys.contains(f.key)
                &&& is_listed(f.key, prefix)
                &&& f == file_of(f.key)
            } by {
                if i < at {
                    assert(more[i] == files[i]);
                    assert(rest.contains(files[i].key));
                } else if i > at {
                    assert(more[i] == files[i - 1]);
                    assert(rest.contains(files[i - 1].key));
                }
            }
            more
        } else {
            assert forall|i: int| 0 <= i < files.len() implies keys.contains(
                (#[trigger] files[i]).key,
            ) by {
                assert(rest.contains(files[i].key));
            }
            assert forall|k: Seq<char>| #[trigger] keys.contains(k) && is_listed(
                k,
                prefix,
            ) implies files.contains(file_of(k)) by {
                assert(rest.contains(k));
            }
            files
        }
    }
}

/// Where a file of this name belongs among ascending files, from `from` on.
spec fn place_for(files: Seq<FileModel>, name: Seq<char>, from: int) -> int
    decreases files.len() - from,
{
    if from >= files.len() || text::text_le(name, files[from].filename) {
        from
    } else {
        place_for(files, name, from + 1)
    }
}

proof fn place_is_right(files: Seq<FileModel>, name: Seq<char>, from: int)
    requires
        0 <= from <= files.len(),
    ensures
        from <= place_for(files, name, from) <= files.len(),
        forall|i: int|
            from <= i < place_for(files, name, from) ==> text::text_le(
                (#[trigger] files[i]).filename,
                name,
            ),
        place_for(files, name, from) < files.len() ==> text::text_le(
            name,
            files[place_for(files, name, from)].filename,
        ),
    decreases files.len() - from,
{
    if from < files.len() && !text::text_le(name, files[from].filename) {
        place_is_right(files, name, from + 1);
        text::text_le_total(name, files[from].filename);
    }
}

spec fn ascending(files: Seq<FileModel>) -> bool {
    forall|i: int, j: int|
        0 <= i < j < files.len() ==> {
            &&& text::text_le((#[trigger] files[i]).filename, (#[trigger] files[j]).filename)
            &&& files[i].filename != files[j].filename
        }
}

proof fn ascending_unique(a: Seq<FileModel>, b: Seq<FileModel>)
    requires
        ascending(a),
        ascending(b),
        forall|f: FileModel| a.contains(f) <==> b.contains(f),
    ensures
        a == b,
    decreases a.len(),
{
    if a.len() == 0 {
        if b.len() > 0 {
            assert(b.contains(b[0]));
            assert(a.contains(b[0]));
        }
        assert(a =~= b);
    } else {
        assert(a.contains(a[0]));
        assert(b.contains(a[0]));
        let k = choose|k: int| 0 <= k < b.len() && b[k] == a[0];
        assert(b.contains(b[0]));
        assert(a.contains(b[0]));
        let m = choose|m: int| 0 <= m < a.len() && a[m] == b[0];
        if k > 0 && m > 0 {
            assert(text::text_le(a[0].filename, a[m].filename));
            assert(text::text_le(b[0].filename, b[k].filename));
            text::text_le_total(a[0].filename, b[0].filename);
            assert(a[0].filename != a[m].filename);
        }
        assert(a[0] == b[0]);
        let x = a.skip(1);
        let y = b.skip(1);
        assert forall|i: int, j: int| 0 <= i < j < x.len() implies {
            &&& text::text_le((#[trigger] x[i]).filename, (#[trigger] x[j]).filename)
            &&& x[i].filename != x[j].filename
        } by {
            assert(x[i] == a[i + 1] && x[j] == a[j + 1]);
        }
        assert forall|i: int, j: int| 0 <= i < j < y.len() implies {
            &&& text::text_le((#[trigger] y[i]).filename, (#[trigger] y[j]).filename)
            &&& y[i].filename != y[j].filename
        } by {
            assert(y[i] == b[i + 1] && y[j] == b[j + 1]);
        }
        assert forall|f: FileModel| x.contains(f) <==> y.contains(f) by {
            if x.contains(f) {
                let i = choose|i: int| 0 <= i < x.len() && x[i] == f;
                assert(a[i + 1] == f);
                assert(a[0].filename != a[i + 1].filename);
                assert(b.contains(f));
                let j = choose|j: int| 0 <= j < b.len() && b[j] == f;
                assert(j > 0);
                assert(y[j - 1] == f);
            }
            if y.contains(f) {
                let i = choose|i: int| 0 <= i < y.len() && y[i] == f;
                assert(b[i + 1] == f);
                assert(b[0].filename != b[i + 1].filename);
                assert(a.contains(f));
                let j = choose|j: int| 0 <= j < a.len() && a[j] == f;
                assert(j > 0);
                assert(x[j - 1] == f);
            }
        }
        ascending_unique(x, y);
        assert(a =~= seq![a[0]] + x);
        assert(b =~= seq![b[0]] + y);
    }
}

// ---------------------------------------------------------------------------
// Listing
// ---------------------------------------------------------------------------

/// Puts `file` behind the files of `sorted` whose names are not after its own.
fn insert_by_name(sorted: &mut Vec<MigrationFile>, file: MigrationFile, Ghost(files): Ghost<
    Seq<FileModel>,
>)
    requires
        sorted_by_name(old(sorted).deep_view(), files),
    ensures
        sorted_by_name(final(sorted).deep_view(), files.push(file.deep_view())),
{
    let ghost before = sorted.deep_view();
    let ghost x = file.deep_view();
    let mut at: usize = sorted.len();
    while at > 0 && !text::in_order(sorted[at - 1].filename.as_str(), file.filename.as_str())
        invariant
            at <= sorted@.len(),
            before == sorted.deep_view(),
            x == file.deep_view(),
            forall|k: int|
                at <= k < sorted@.len() ==> !text::text_le(
                    (#[trigger] before[k]).filename,
                    x.filename,
                ),
        decreases at,
    {
        assert(before[at - 1].filename == sorted@[at - 1].filename@);
        at -= 1;
    }
    proof {
        if at > 0 {
            assert(before[at - 1].filename == sorted@[at - 1].filename@);
        }
    }
    sorted.insert(at, file);
    proof {
        let after = sorted.deep_view();
        let a = before.take(at as int);
        let b = before.skip(at as int);
        assert(before =~= a + b);
        assert(after =~= a + seq![x] + b);
        assert forall|name: Seq<char>| #[trigger]
            named(after, name) == named(files.push(x), name) by {
            assert(named(before, name) == named(files, name));
            filter_concat(a, b, name);
            filter_concat(a + seq![x], b, name);
            filter_concat(a, seq![x], name);
            filter_concat(files, seq![x], name);
            assert(files + seq![x] =~= files.push(x));
            if x.filename == name {
                assert(named(b, name) =~= Seq::<FileModel>::empty()) by {
                    if named(b, name).len() > 0 {
                        let f = named(b, name)[0];
                        assert(named(b, name).contains(f));
                        filter_keeps(b, name, f);
                        let k = choose|k: int| 0 <= k < b.len() && b[k] == f;
                        assert(before[at + k] == f);
                        text::text_le_reflexive(name);
                    }
                }
            } else {
                assert(seq![x].drop_last() =~= Seq::<FileModel>::empty());
                named_step(seq![x], name);
                named_nothing(name);
                assert(named(files, name) + named(seq![x], name) =~= named(files, name));
            }
            assert(named(after, name) =~= named(files.push(x), name));
        }
        assert(by_name(after)) by {
            assert forall|i: int, j: int| 0 <= i <= j < after.len() implies text::text_le(
                (#[trigger] after[i]).filename,
                (#[trigger] after[j]).filename,
            ) by {
                let fi = if i < at {
                    before[i]
                } else if i == at {
                    x
                } else {
                    before[i - 1]
                };
                let fj = if j < at {
                    before[j]
                } else if j == at {
                    x
                } else {
                    before[j - 1]
                };
                assert(after[i] == fi && after[j] == fj);
                if i == at && j == at {
                    text::text_le_reflexive(x.filename);
                } else if i < at && j == at {
                    assert(text::text_le(before[i].filename, before[at - 1].filename));
                    text::text_le_transitive(
                        before[i].filename,
                        before[at - 1].filename,
                        x.filename,
                    );
                } else if i == at && j > at {
                    text::text_le_total(x.filename, before[j - 1].filename);
                }
            }
        }
    }
}

/// The SQL files among `keys` at the depth of `prefix`, by name.
pub fn sql_files(keys: &Vec<String>, prefix: &str) -> (files: Vec<MigrationFile>)
    ensures
        sorted_by_name(files.deep_view(), sql_among(text::texts(keys@), prefix@)),
{
    let depth = text::occurrences(prefix, '/');
    let mut files: Vec<MigrationFile> = Vec::new();
    let mut i: usize = 0;
    let ghost all = text::texts(keys@);
    proof {
        assert(all.take(0) =~= Seq::empty());
        assert(files.deep_view() =~= Seq::<FileModel>::empty());
        sql_among_nothing(prefix@);
    }
    while i < keys.len()
        invariant
            i <= keys@.len(),
            all == text::texts(keys@),
            depth == text::count(prefix@, '/'),
            sorted_by_name(files.deep_view(), sql_among(all.take(i as int), prefix@)),
        decreases keys@.len() - i,
    {
        let key = keys[i].as_str();
        let ghost before = sql_among(all.take(i as int), prefix@);
        assert(all.take(i + 1).drop_last() =~= all.take(i as int));
        assert(all.take(i + 1).last() == key@);
        proof {
            sql_among_step(all.take(i + 1), prefix@);
        }
        if text::ends_with(key, ".sql") && text::occurrences(key, '/') == depth {
            let parts = text::split_on(key, '/');
            let filename = parts[parts.len() - 1].clone();
            assert(filename@ == file_of(key@).filename);
            let file = MigrationFile { key: key.to_string(), filename };
            insert_by_name(&mut files, file, Ghost(before));
        }
        i += 1;
    }
    assert(all.take(i as int) =~= all);
    files
}

// ---------------------------------------------------------------------------
// Stores
// ---------------------------------------------------------------------------

/// A store of SQL files. An error is its message.
pub trait FileStore {
    /// The SQL files directly under `prefix`, by name.
    fn list_files(&self, prefix: &str) -> Result<Vec<MigrationFile>, String>;

    /// The content of the file with the key `key`.
    fn read_file(&self, key: &str) -> Result<String, String>;
}

/// A store of parameters and secrets. An error is its message.
pub trait CredentialStore {
    fn get_param(&self, name: &str) -> Result<String, String>;

    fn get_secret(&self, name: &str) -> Result<String, String>;

    fn put_param(&mut self, name: &str, value: &str) -> Result<(), String>;

    fn put_secret(&mut self, name: &str, value: &str) -> Result<(), String>;
}

/// A file store in memory.
pub struct MemoryFileStore {
    files: TextMap,
}

impl View for MemoryFileStore {
    type V = Map<Seq<char>, Seq<char>>;

    /// The content of each file by its key.
    closed spec fn view(&self) -> Map<Seq<char>, Seq<char>> {
        self.files@
    }
}

impl Default for MemoryFileStore {
    fn default() -> (store: Self)
        ensures
            store@ == Map::<Seq<char>, Seq<char>>::empty(),
    {
        MemoryFileStore::new()
    }
}

impl MemoryFileStore {
    /// The empty store.
    pub fn new() -> (store: Self)
        ensures
            store@ == Map::<Seq<char>, Seq<char>>::empty(),
    {
        MemoryFileStore { files: TextMap::new() }
    }

    /// Stores `content` under `key`, in place of what was there.
    pub fn add_file(&mut self, key: &str, content: &str)
        ensures
            final(self)@ == old(self)@.insert(key@, content@),
    {
        self.files.insert(key, content);
    }
}

impl FileStore for MemoryFileStore {
    fn list_files(&self, prefix: &str) -> (r: Result<Vec<MigrationFile>, String>)
        ensures
            r matches Ok(files) && is_listing(files.deep_view(), self@, prefix@),
    {
        let keys = self.files.keys();
        let ghost all = text::texts(keys@);
        let mut under: Vec<String> = Vec::new();
        let mut i: usize = 0;
        while i < keys.len()
            invariant
                i <= keys@.len(),
                all == text::texts(keys@),
                all.no_duplicates(),
                forall|k: int|
                    #![trigger under@[k]]
                    0 <= k < under@.len() ==> prefix@.is_prefix_of(under@[k]@) && all.take(
                        i as int,
                    ).contains(under@[k]@),
                forall|n: int|
                    0 <= n < i && prefix@.is_prefix_of(#[trigger] all[n]) ==> text::texts(
                        under@,
                    ).contains(all[n]),
                text::texts(under@).no_duplicates(),
            decreases keys@.len() - i,
        {
            if text::starts_with(keys[i].as_str(), prefix) {
                let ghost front = under@;
                under.push(keys[i].clone());
                proof {
                    let now = text::texts(under@);
                    assert(now =~= text::texts(front).push(all[i as int]));
                    assert forall|k: int| #![trigger under@[k]] 0 <= k < under@.len() implies prefix@
                        .is_prefix_of(under@[k]@) && all.take(i + 1).contains(under@[k]@) by {
                        if k < front.len() {
                            assert(under@[k] == front[k]);
                            taken_more(all, i as int, front[k]@);
                        } else {
                            assert(all.take(i + 1)[i as int] == under@[k]@);
                        }
                    }
                    assert forall|n: int|
                        0 <= n < i + 1 && prefix@.is_prefix_of(#[trigger] all[n]) implies now.contains(
                        all[n],
                    ) by {
                        if n < i {
                            let k = choose|k: int|
                                0 <= k < text::texts(front).len() && text::texts(front)[k]
                                    == all[n];
                            assert(now[k] == all[n]);
                        } else {
                            assert(now[front.len() as int] == all[n]);
                        }
                    }
                    assert forall|a: int, b: int| 0 <= a < now.len() && 0 <= b < now.len() && a
                        != b implies now[a] != now[b] by {
                        let last = front.len() as int;
                        if a < last && b < last {
                            assert(text::texts(front)[a] != text::texts(front)[b]);
                        } else if a < last {
                            assert(under@[a] == front[a]);
                            let n = choose|n: int| 0 <= n < i && all.take(i as int)[n] == front[a]@;
                            assert(all[n] != all[i as int]);
                        } else {
                            assert(under@[b] == front[b]);
                            let n = choose|n: int| 0 <= n < i && all.take(i as int)[n] == front[b]@;
                            assert(all[n] != all[i as int]);
                        }
                    }
                }
            } else {
                assert forall|k: int|
                    #![trigger under@[k]]
                    0 <= k < under@.len() implies all.take(i + 1).contains(under@[k]@) by {
                    taken_more(all, i as int, under@[k]@);
                }
            }
            i += 1;
        }
        assert(all.take(i as int) =~= all);
        let files = sql_files(&under, prefix);
        proof {
            memory_listing(files.deep_view(), text::texts(under@), all, self@, prefix@);
        }
        Ok(files)
    }

    fn read_file(&self, key: &str) -> (r: Result<String, String>)
        ensures
            r is Ok <==> self@.contains_key(key@),
            r matches Ok(content) ==> content@ == self@[key@],
            r matches Err(message) ==> message@ == "File not found: "@ + key@,
    {
        match self.files.get(key) {
            Some(content) => Ok(content),
            None => Err(String::from_str("File not found: ").concat(key)),
        }
    }
}

proof fn taken_more(all: Seq<Seq<char>>, i: int, x: Seq<char>)
    requires
        0 <= i < all.len(),
        all.take(i).contains(x),
    ensures
        all.take(i + 1).contains(x),
{
    let n = choose|n: int| 0 <= n < i && all.take(i)[n] == x;
    assert(all.take(i + 1)[n] == x);
}

proof fn sql_among_contains(keys: Seq<Seq<char>>, prefix: Seq<char>, f: FileModel)
    ensures
        sql_among(keys, prefix).contains(f) <==> keys.contains(f.key) && sql_at_depth(
            f.key,
            prefix,
        ) && f == file_of(f.key),
    decreases keys.len(),
{
    let files = sql_among(keys, prefix);
    if keys.len() == 0 {
        assert(keys =~= Seq::empty());
        sql_among_nothing(prefix);
    } else {
        let init = keys.drop_last();
        sql_among_contains(init, prefix, f);
        sql_among_step(keys, prefix);
        let rest = sql_among(init, prefix);
        let last = keys.last();
        if keys.contains(f.key) {
            let i = choose|i: int| 0 <= i < keys.len() && keys[i] == f.key;
            if i < init.len() {
                assert(init[i] == f.key);
            }
        }
        if init.contains(f.key) {
            let i = choose|i: int| 0 <= i < init.len() && init[i] == f.key;
            assert(keys[i] == f.key);
        }
        if sql_at_depth(last, prefix) {
            if rest.contains(f) {
                let i = choose|i: int| 0 <= i < rest.len() && rest[i] == f;
                assert(files[i] == f);
            }
            if files.contains(f) {
                let i = choose|i: int| 0 <= i < files.len() && files[i] == f;
                if i < rest.len() {
                    assert(rest[i] == f);
                } else {
                    assert(keys[keys.len() - 1] == f.key);
                }
            }
            if f == file_of(last) {
                assert(files[rest.len() as int] == f);
            }
        }
    }
}

proof fn memory_listing(
    files: Seq<FileModel>,
    under: Seq<Seq<char>>,
    all: Seq<Seq<char>>,
    contents: Map<Seq<char>, Seq<char>>,
    prefix: Seq<char>,
)
    requires
        sorted_by_name(files, sql_among(under, prefix)),
        under.no_duplicates(),
        forall|key: Seq<char>| #[trigger] all.contains(key) <==> contents.contains_key(key),
        forall|k: int|
            #![trigger under[k]]
            0 <= k < under.len() ==> prefix.is_prefix_of(under[k]) && exists|n: int|
                0 <= n < all.len() && all[n] == under[k],
        forall|n: int|
            0 <= n < all.len() && prefix.is_prefix_of(#[trigger] all[n]) ==> under.contains(all[n]),
    ensures
        is_listing(files, contents, prefix),
{
    let chosen = sql_among(under, prefix);
    assert forall|i: int| 0 <= i < files.len() implies {
        let file = #[trigger] files[i];
        &&& contents.contains_key(file.key)
        &&& is_listed(file.key, prefix)
        &&& file == file_of(file.key)
    } by {
        let file = files[i];
        assert(files.contains(file));
        sorted_same_files(files, chosen, file);
        sql_among_contains(under, prefix, file);
        let k = choose|k: int| 0 <= k < under.len() && under[k] == file.key;
        assert(prefix.is_prefix_of(under[k]));
        let n = choose|n: int| 0 <= n < all.len() && all[n] == under[k];
        assert(all.contains(file.key));
    }
    assert forall|key: Seq<char>|
        #![trigger contents.contains_key(key)]
        contents.contains_key(key) && is_listed(key, prefix) implies files.contains(
        file_of(key),
    ) by {
        assert(all.contains(key));
        let n = choose|n: int| 0 <= n < all.len() && all[n] == key;
        assert(under.contains(all[n]));
        sql_among_contains(under, prefix, file_of(key));
        sorted_same_files(files, chosen, file_of(key));
    }
    assert forall|i: int, j: int| 0 <= i < j < files.len() implies {
        &&& text::text_le((#[trigger] files[i]).filename, (#[trigger] files[j]).filename)
        &&& files[i].filename != files[j].filename
    } by {
        if files[i].filename == files[j].filename {
            listed_name_determines_key(files[i].key, files[j].key, prefix);
            let name = files[i].filename;
            assert(named(files, name) == named(chosen, name));
            twice(files, name, i, j);
            chosen_once(under, prefix, name);
        }
    }
}

/// Two positions with the same name make two entries of that name.
proof fn twice(files: Seq<FileModel>, name: Seq<char>, i: int, j: int)
    requires
        0 <= i < j < files.len(),
        files[i].filename == name,
        files[j].filename == name,
    ensures
        named(files, name).len() >= 2,
{
    let a = files.take(j);
    let b = files.skip(j);
    assert(files =~= a + b);
    filter_concat(a, b, name);
    assert(a[i] == files[i]);
    assert(a.contains(files[i]));
    assert(b[0] == files[j]);
    assert(b.contains(files[j]));
    filter_keeps(a, name, files[i]);
    filter_keeps(b, name, files[j]);
    assert(named(a, name).len() > 0);
    assert(named(b, name).len() > 0);
}

/// Keys under one prefix, each once, give at most one file of a name.
proof fn chosen_once(under: Seq<Seq<char>>, prefix: Seq<char>, name: Seq<char>)
    requires
        under.no_duplicates(),
        forall|k: int| 0 <= k < under.len() ==> prefix.is_prefix_of(#[trigger] under[k]),
    ensures
        named(sql_among(under, prefix), name).len() <= 1,
    decreases under.len(),
{
    if under.len() == 0 {
        assert(under =~= Seq::empty());
        sql_among_nothing(prefix);
        named_nothing(name);
    } else {
        let init = under.drop_last();
        assert forall|k: int| 0 <= k < init.len() implies prefix.is_prefix_of(
            #[trigger] init[k],
        ) by {
            assert(init[k] == under[k]);
        }
        chosen_once(init, prefix, name);
        let rest = sql_among(init, prefix);
        let files = sql_among(under, prefix);
        sql_among_step(under, prefix);
        if sql_at_depth(under.last(), prefix) {
            let f = file_of(under.last());
            assert(rest.push(f).drop_last() =~= rest);
            named_step(files, name);
            if f.filename == name && named(rest, name).len() > 0 {
                let g = named(rest, name)[0];
                assert(named(rest, name).contains(g));
                filter_keeps(rest, name, g);
                sql_among_contains(init, prefix, g);
                let k = choose|k: int| 0 <= k < init.len() && init[k] == g.key;
                assert(under[k] == g.key);
                assert(prefix.is_prefix_of(under[k]));
                assert(prefix.is_prefix_of(under[under.len() - 1]));
                listed_name_determines_key(g.key, f.key, prefix);
                assert(under[k] != under[under.len() - 1]);
            }
        }
    }
}

/// A credential store in memory.
pub struct MemoryCredentialStore {
    params: TextMap,
}

impl View for MemoryCredentialStore {
    type V = Map<Seq<char>, Seq<char>>;

    /// The value of each parameter and secret by its name.
    closed spec fn view(&self) -> Map<Seq<char>, Seq<char>> {
        self.params@
    }
}

impl Default for MemoryCredentialStore {
    fn default() -> (store: Self)
        ensures
            store@ == Map::<Seq<char>, Seq<char>>::empty(),
    {
        MemoryCredentialStore::new()
    }
}

impl MemoryCredentialStore {
    /// The empty store.
    pub fn new() -> (store: Self)
        ensures
            store@ == Map::<Seq<char>, Seq<char>>::empty(),
    {
        MemoryCredentialStore { params: TextMap::new() }
    }

    /// Everything in the store.
    pub fn get_all(&self) -> (r: StringHashMap<String>)
        ensures
            r@.dom() == self@.dom(),
            forall|name: Seq<char>| #[trigger]
                self@.contains_key(name) ==> r@[name]@ == self@[name],
    {
        self.params.to_hash_map()
    }
}

impl CredentialStore for MemoryCredentialStore {
    fn get_param(&self, name: &str) -> (r: Result<String, String>)
        ensures
            r is Ok <==> self@.contains_key(name@),
            r matches Ok(value) ==> value@ == self@[name@],
            r matches Err(message) ==> message@ == "Param not found: "@ + name@,
    {
        match self.params.get(name) {
            Some(value) => Ok(value),
            None => Err(String::from_str("Param not found: ").concat(name)),
        }
    }

    fn get_secret(&self, name: &str) -> (r: Result<String, String>)
        ensures
            r is Ok <==> self@.contains_key(name@),
            r matches Ok(value) ==> value@ == self@[name@],
            r matches Err(message) ==> message@ == "Param not found: "@ + name@,
    {
        self.get_param(name)
    }

    fn put_param(&mut self, name: &str, value: &str) -> (r: Result<(), String>)
        ensures
            r is Ok,
            final(self)@ == old(self)@.insert(name@, value@),
    {
        self.params.insert(name, value);
        Ok(())
    }

    fn put_secret(&mut self, name: &str, value: &str) -> (r: Result<(), String>)
        ensures
            r is Ok,
            final(self)@ == old(self)@.insert(name@, value@),
    {
        self.put_param(name, value)
    }
}

} // verus!
