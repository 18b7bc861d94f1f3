use vstd::prelude::*;
use vstd::string::*;
use crate::text::{is_prefix_of, join_text, starts_with_text};

verus! {

/// A package of the remote registry. `created_at` is in seconds since the epoch.
pub struct GitlabPackage {
    pub id: u64,
    pub name: String,
    pub package_type: String,
    pub created_at: i64,
}

/// A file of a package. `created_at` is in seconds since the epoch.
#[derive(Clone, Debug)]
pub struct GitlabPackageFile {
    pub id: u64,
    pub created_at: i64,
    pub file_name: String,
    pub size: u64,
}

/// What the extension pattern `(\.[a-z]\w+)+$` finds in a file name: the
/// trailing run of `.segment` groups, or nothing.
pub uninterp spec fn extension_of(file_name: Seq<char>) -> Seq<char>;

/// Relies on `regex::Regex::find` with the pattern `(\.[a-z]\w+)+$`: the
/// result depends on the file name alone.
#[verifier::external_body]
fn file_extension(file_name: &str) -> (r: String)
    ensures
        r@ == extension_of(file_name@),
{
    let re = regex::Regex::new(r"(\.[a-z]\w+)+$").unwrap();
    re.find(file_name).map(|m| m.as_str()).unwrap_or("").to_string()
}

/// The segment of a package name after its last `/`.
pub open spec fn short_name(name: Seq<char>) -> Seq<char>
    decreases name.len(),
{
    if name.len() == 0 {
        name
    } else if name.last() == '/' {
        Seq::empty()
    } else {
        short_name(name.drop_last()).push(name.last())
    }
}

/// The key of a file, with the extension that the extension pattern finds
/// in its name.
pub open spec fn file_key(package_type: Seq<char>, short: Seq<char>, file_name: Seq<char>) -> (bool, Seq<char>) {
    file_key_with(package_type, short, file_name, extension_of(file_name))
}

/// The key under which a file is compared with the files before it, `ext`
/// being the file's extension: for a maven package and a file named after
/// it, the short name followed by the extension (`true`); otherwise the
/// exact file name (`false`).
pub open spec fn file_key_with(package_type: Seq<char>, short: Seq<char>, file_name: Seq<char>, ext: Seq<char>) -> (bool, Seq<char>) {
    if package_type == "maven"@ && is_prefix_of(short, file_name) {
        (true, short + ext)
    } else {
        (false, file_name)
    }
}

/// The keys of a package's files, in order, with `exts[i]` standing for the
/// extension of file `i`.
pub open spec fn keys_with(package: GitlabPackage, files: Seq<GitlabPackageFile>, exts: Seq<Seq<char>>) -> Seq<(bool, Seq<char>)> {
    Seq::new(files.len(), |i: int| file_key_with(package.package_type@, short_name(package.name@), files[i].file_name@, exts[i]))
}

/// The keys of a package's files, in order.
pub open spec fn keys_of(package: GitlabPackage, files: Seq<GitlabPackageFile>) -> Seq<(bool, Seq<char>)> {
    files.map_values(|f: GitlabPackageFile| file_key(package.package_type@, short_name(package.name@), f.file_name@))
}

/// The key at index `i` already occurred before it.
pub open spec fn is_repeat(keys: Seq<(bool, Seq<char>)>, i: int) -> bool {
    exists|j: int| 0 <= j < i && keys[j] == keys[i]
}

/// The indices, in increasing order, of the keys that repeat an earlier one.
pub open spec fn repeated_indices(keys: Seq<(bool, Seq<char>)>) -> Seq<usize>
    decreases keys.len(),
{
    if keys.len() == 0 {
        Seq::empty()
    } else {
        let prev = repeated_indices(keys.drop_last());
        if is_repeat(keys, keys.len() - 1) {
            prev.push((keys.len() - 1) as usize)
        } else {
            prev
        }
    }
}

/// The obsolete files of a package whose files are sorted newest first.
pub open spec fn obsolete_indices(package: GitlabPackage, files: Seq<GitlabPackageFile>) -> Seq<usize> {
    repeated_indices(keys_of(package, files))
}

/// The files that detection keeps: those whose key did not occur before.
pub open spec fn kept_files(package: GitlabPackage, files: Seq<GitlabPackageFile>) -> Seq<GitlabPackageFile>
    decreases files.len(),
{
    if files.len() == 0 {
        Seq::empty()
    } else {
        let prev = kept_files(package, files.drop_last());
        if is_repeat(keys_of(package, files), files.len() - 1) {
            prev
        } else {
            prev.push(files.last())
        }
    }
}

proof fn lemma_keys_drop_last(package: GitlabPackage, files: Seq<GitlabPackageFile>)
    requires
        files.len() > 0,
    ensures
        keys_of(package, files.drop_last()) == keys_of(package, files).drop_last(),
{
    assert(keys_of(package, files.drop_last()) =~= keys_of(package, files).drop_last());
}

proof fn lemma_is_repeat_prefix(keys: Seq<(bool, Seq<char>)>, i: int)
    requires
        keys.len() > 0,
        0 <= i < keys.len() - 1,
    ensures
        is_repeat(keys.drop_last(), i) == is_repeat(keys, i),
{
    if is_repeat(keys, i) {
        let j = choose|j: int| 0 <= j < i && keys[j] == keys[i];
        assert(keys.drop_last()[j] == keys.drop_last()[i]);
    }
    if is_repeat(keys.drop_last(), i) {
        let j = choose|j: int| 0 <= j < i && keys.drop_last()[j] == keys.drop_last()[i];
        assert(keys[j] == keys[i]);
    }
}

/// An index is listed exactly when its key repeats an earlier one, and the
/// list is strictly increasing.
pub proof fn lemma_repeated_indices_members(keys: Seq<(bool, Seq<char>)>)
    requires
        keys.len() <= usize::MAX,
    ensures
        forall|i: int| 0 <= i < keys.len() ==> (repeated_indices(keys).contains(i as usize) <==> is_repeat(keys, i)),
        forall|k: int| 0 <= k < repeated_indices(keys).len() ==> (repeated_indices(keys)[k] as int) < keys.len(),
        forall|k: int, l: int| 0 <= k < l < repeated_indices(keys).len() ==> repeated_indices(keys)[k] < repeated_indices(keys)[l],
    decreases keys.len(),
{
    if keys.len() > 0 {
        let prev = keys.drop_last();
        lemma_repeated_indices_members(prev);
        let r = repeated_indices(keys);
        let pr = repeated_indices(prev);
        let last = keys.len() - 1;
        assert forall|i: int| 0 <= i < keys.len() implies (r.contains(i as usize) <==> is_repeat(keys, i)) by {
            if i < last {
                lemma_is_repeat_prefix(keys, i);
                if r.contains(i as usize) {
                    let k = choose|k: int| 0 <= k < r.len() && r[k] == i as usize;
                    if k < pr.len() {
                        assert(pr[k] == i as usize);
                    }
                }
                if pr.contains(i as usize) {
                    let k = choose|k: int| 0 <= k < pr.len() && pr[k] == i as usize;
                    assert(r[k] == i as usize);
                }
            } else {
                if is_repeat(keys, last) {
                    assert(r[r.len() - 1] == last as usize);
                } else {
                    if r.contains(i as usize) {
                        let k = choose|k: int| 0 <= k < r.len() && r[k] == i as usize;
                        assert(pr[k] == i as usize);
                    }
                }
            }
        }
    }
}

/// Detection never lists the first file of a key, and in particular never
/// lists the first file.
pub proof fn lemma_first_occurrence_kept(package: GitlabPackage, files: Seq<GitlabPackageFile>, i: int)
    requires
        files.len() <= usize::MAX,
        0 <= i < files.len(),
        !is_repeat(keys_of(package, files), i),
    ensures
        !obsolete_indices(package, files).contains(i as usize),
        !obsolete_indices(package, files).contains(0usize),
{
    lemma_repeated_indices_members(keys_of(package, files));
    assert(!is_repeat(keys_of(package, files), 0));
}

proof fn lemma_kept_keys_from(package: GitlabPackage, files: Seq<GitlabPackageFile>)
    ensures
        kept_files(package, files).len() <= files.len(),
        forall|a: int| 0 <= a < kept_files(package, files).len() ==> exists|b: int|
            0 <= b < files.len() && !is_repeat(keys_of(package, files), b)
            && #[trigger] keys_of(package, kept_files(package, files))[a] == keys_of(package, files)[b],
        forall|a: int, c: int| 0 <= a < c < kept_files(package, files).len() ==>
            keys_of(package, kept_files(package, files))[a] != keys_of(package, kept_files(package, files))[c],
    decreases files.len(),
{
    if files.len() > 0 {
        let prev = files.drop_last();
        lemma_kept_keys_from(package, prev);
        lemma_keys_drop_last(package, files);
        let keys = keys_of(package, files);
        let kp = kept_files(package, prev);
        let kk = kept_files(package, files);
        let last = files.len() - 1;
        assert forall|b: int| 0 <= b < prev.len() && !is_repeat(keys_of(package, prev), b)
            implies !is_repeat(keys, b) by {
            lemma_is_repeat_prefix(keys, b);
        }
        if !is_repeat(keys, last) {
            assert(kk == kp.push(files.last()));
            assert(keys_of(package, kk).drop_last() =~= keys_of(package, kp));
            assert forall|a: int| 0 <= a < kk.len() implies exists|b: int|
                0 <= b < files.len() && !is_repeat(keys, b)
                && #[trigger] keys_of(package, kk)[a] == keys[b] by {
                if a < kp.len() {
                    assert(keys_of(package, kk)[a] == keys_of(package, kp)[a]);
                    let b = choose|b: int| 0 <= b < prev.len() && !is_repeat(keys_of(package, prev), b)
                        && keys_of(package, kp)[a] == keys_of(package, prev)[b];
                    assert(keys[b] == keys_of(package, prev)[b]);
                } else {
                    assert(keys_of(package, kk)[a] == keys[last]);
                }
            }
            assert forall|a: int, c: int| 0 <= a < c < kk.len() implies
                keys_of(package, kk)[a] != keys_of(package, kk)[c] by {
                if c < kp.len() {
                    assert(keys_of(package, kk)[a] == keys_of(package, kp)[a]);
                    assert(keys_of(package, kk)[c] == keys_of(package, kp)[c]);
                } else {
                    assert(keys_of(package, kk)[a] == keys_of(package, kp)[a]);
                    let b = choose|b: int| 0 <= b < prev.len() && !is_repeat(keys_of(package, prev), b)
                        && keys_of(package, kp)[a] == keys_of(package, prev)[b];
                    assert(keys[b] == keys_of(package, prev)[b]);
                    assert(keys_of(package, kk)[c] == keys[last]);
                }
            }
        } else {
            assert(keys_of(package, kk) == keys_of(package, kp));
            assert forall|a: int| 0 <= a < kk.len() implies exists|b: int|
                0 <= b < files.len() && !is_repeat(keys, b)
                && #[trigger] keys_of(package, kk)[a] == keys[b] by {
                let b = choose|b: int| 0 <= b < prev.len() && !is_repeat(keys_of(package, prev), b)
                    && keys_of(package, kp)[a] == keys_of(package, prev)[b];
                assert(keys[b] == keys_of(package, prev)[b]);
            }
        }
    }
}

/// Detection on files without repeated keys finds nothing obsolete.
proof fn lemma_distinct_keys_none_repeated(keys: Seq<(bool, Seq<char>)>)
    requires
        forall|a: int, c: int| 0 <= a < c < keys.len() ==> keys[a] != keys[c],
    ensures
        repeated_indices(keys) == Seq::<usize>::empty(),
    decreases keys.len(),
{
    if keys.len() > 0 {
        let prev = keys.drop_last();
        assert forall|a: int, c: int| 0 <= a < c < prev.len() implies prev[a] != prev[c] by {
            assert(prev[a] == keys[a] && prev[c] == keys[c]);
        }
        lemma_distinct_keys_none_repeated(prev);
        assert(!is_repeat(keys, keys.len() - 1));
    }
}

/// Cleaning is idempotent: once the obsolete files are removed, detection on
/// what is left finds nothing more to remove.
pub proof fn lemma_detection_idempotent(package: GitlabPackage, files: Seq<GitlabPackageFile>)
    ensures
        obsolete_indices(package, kept_files(package, files)) == Seq::<usize>::empty(),
{
    lemma_kept_keys_from(package, files);
    lemma_distinct_keys_none_repeated(keys_of(package, kept_files(package, files)));
}

/// A package without files has no obsolete file, whatever its type.
pub proof fn lemma_no_files_nothing_obsolete(package: GitlabPackage)
    ensures
        obsolete_indices(package, Seq::empty()) == Seq::<usize>::empty(),
{
}

/// A package with a single file has no obsolete file, whatever its type and
/// the file's name.
pub proof fn lemma_single_file_nothing_obsolete(package: GitlabPackage, file: GitlabPackageFile)
    ensures
        obsolete_indices(package, seq![file]) == Seq::<usize>::empty(),
{
    let keys = keys_of(package, seq![file]);
    assert(keys.len() == 1);
    assert(keys.drop_last() =~= Seq::<(bool, Seq<char>)>::empty());
    assert(repeated_indices(keys.drop_last()) == Seq::<usize>::empty());
    assert(!is_repeat(keys, 0));
    assert(repeated_indices(keys) == repeated_indices(keys.drop_last()));
}

/// Detection is a function of the package's name and type and of the file
/// names alone: two runs on the same names give the same indices, whatever
/// the ids, sizes and instants.
pub proof fn lemma_detection_depends_on_names(
    p1: GitlabPackage,
    p2: GitlabPackage,
    f1: Seq<GitlabPackageFile>,
    f2: Seq<GitlabPackageFile>,
)
    requires
        p1.name@ == p2.name@,
        p1.package_type@ == p2.package_type@,
        f1.len() == f2.len(),
        forall|i: int| 0 <= i < f1.len() ==> (#[trigger] f1[i]).file_name@ == f2[i].file_name@,
    ensures
        obsolete_indices(p1, f1) == obsolete_indices(p2, f2),
{
    assert(keys_of(p1, f1) =~= keys_of(p2, f2));
}

/// The short name of a package: its name after the last `/`.
pub fn package_short_name(name: &str) -> (r: String)
    ensures
        r@ == short_name(name@),
{
    let len = name.unicode_len();
    let mut start: usize = 0;
    let mut i: usize = 0;
    while i < len
        invariant
            len == name@.len(),
            start <= i <= len,
            short_name(name@.subrange(0, i as int)) == name@.subrange(start as int, i as int),
        decreases len - i,
    {
        let c = name.get_char(i);
        assert(name@.subrange(0, i + 1).drop_last() == name@.subrange(0, i as int));
        if c == '/' {
            start = i + 1;
            assert(name@.subrange(start as int, i + 1) =~= Seq::<char>::empty());
        } else {
            assert(name@.subrange(start as int, i + 1) =~= name@.subrange(start as int, i as int).push(c));
        }
        i = i + 1;
    }
    assert(name@.subrange(0, len as int) == name@);
    name.substring_char(start, len).to_string()
}

/// The comparison key of one file, `ext` being its extension.
fn key_of_file(is_maven: bool, short: &String, file_name: &String, ext: &String) -> (r: (bool, String))
    ensures
        (r.0, r.1@) == (if is_maven && is_prefix_of(short@, file_name@) {
            (true, short@ + ext@)
        } else {
            (false, file_name@)
        }),
{
    if is_maven && starts_with_text(file_name.as_str(), short.as_str()) {
        (true, join_text(short.as_str(), ext.as_str()))
    } else {
        (false, file_name.clone())
    }
}

/// Indices, in increasing order, of the files that repeat the key of an
/// earlier file, `extensions[i]` standing for the extension of file `i`.
pub fn detect_obsolete_files_with_extensions(
    package: &GitlabPackage,
    sorted_files: &[GitlabPackageFile],
    extensions: &Vec<String>,
) -> (r: Vec<usize>)
    requires
        extensions@.len() == sorted_files@.len(),
    ensures
        r@ == repeated_indices(keys_with(*package, sorted_files@, extensions@.map_values(|e: String| e@))),
{
    let short = package_short_name(package.name.as_str());
    let maven = String::from_str("maven");
    let is_maven = package.package_type == maven;
    let ghost exts = extensions@.map_values(|e: String| e@);
    let ghost keys = keys_with(*package, sorted_files@, exts);
    let n = sorted_files.len();
    let mut seen: Vec<(bool, String)> = Vec::new();
    let mut ids: Vec<usize> = Vec::new();
    let mut i: usize = 0;
    while i < n
        invariant
            n == sorted_files@.len(),
            extensions@.len() == n,
            exts == extensions@.map_values(|e: String| e@),
            keys == keys_with(*package, sorted_files@, exts),
            is_maven == (package.package_type@ == "maven"@),
            short@ == short_name(package.name@),
            i <= n,
            seen@.len() == i,
            forall|k: int| 0 <= k < i ==> (#[trigger] seen@[k].0, seen@[k].1@) == keys[k],
            ids@ == repeated_indices(keys.subrange(0, i as int)),
        decreases n - i,
    {
        let key = key_of_file(is_maven, &short, &sorted_files[i].file_name, &extensions[i]);
        let ghost sub = keys.subrange(0, i + 1);
        assert(sub.drop_last() == keys.subrange(0, i as int));
        let mut found = false;
        let mut j: usize = 0;
        while j < i
            invariant
                n == sorted_files@.len(),
                keys == keys_with(*package, sorted_files@, exts),
                i < n,
                j <= i,
                seen@.len() == i,
                (key.0, key.1@) == keys[i as int],
                forall|k: int| 0 <= k < i ==> (#[trigger] seen@[k].0, seen@[k].1@) == keys[k],
                found == exists|k: int| 0 <= k < j && keys[k] == keys[i as int],
            decreases i - j,
        {
            if !found && seen[j].0 == key.0 && seen[j].1 == key.1 {
                found = true;
            }
            proof {
                if keys[j as int] == keys[i as int] {
                    assert(seen@[j as int].1@ == key.1@);
                }
            }
            j = j + 1;
        }
        assert(found == is_repeat(sub, i as int)) by {
            if found {
                let k = choose|k: int| 0 <= k < i && keys[k] == keys[i as int];
                assert(sub[k] == sub[i as int]);
            }
            if is_repeat(sub, i as int) {
                let k = choose|k: int| 0 <= k < i && sub[k] == sub[i as int];
                assert(keys[k] == keys[i as int]);
            }
        }
        if found {
            ids.push(i);
        }
        seen.push(key);
        i = i + 1;
    }
    assert(keys.subrange(0, n as int) == keys);
    ids
}

/// Indices of the files of a package that are obsolete, in increasing order.
///
/// `sorted_files` is ordered newest first. A file is obsolete when a file
/// before it has the same key: for a maven package and a file whose name
/// starts with the package's short name, that short name followed by the
/// file's extension; otherwise the exact file name. The first file of each
/// key is kept.
pub fn detect_obsolete_files(package: &GitlabPackage, sorted_files: &[GitlabPackageFile]) -> (r: Vec<usize>)
    ensures
        r@ == obsolete_indices(*package, sorted_files@),
{
    let short = package_short_name(package.name.as_str());
    let maven = String::from_str("maven");
    let is_maven = package.package_type == maven;
    let n = sorted_files.len();
    let mut extensions: Vec<String> = Vec::new();
    let mut i: usize = 0;
    while i < n
        invariant
            n == sorted_files@.len(),
            is_maven == (package.package_type@ == "maven"@),
            short@ == short_name(package.name@),
            i <= n,
            extensions@.len() == i,
            forall|k: int| 0 <= k < i ==> file_key_with(package.package_type@, short@, sorted_files@[k].file_name@, #[trigger] extensions@[k]@)
                == file_key(package.package_type@, short@, sorted_files@[k].file_name@),
        decreases n - i,
    {
        let name = &sorted_files[i].file_name;
        if is_maven && starts_with_text(name.as_str(), short.as_str()) {
            extensions.push(file_extension(name.as_str()));
        } else {
            extensions.push(String::new());
        }
        i = i + 1;
    }
    let r = detect_obsolete_files_with_extensions(package, sorted_files, &extensions);
    assert(keys_with(*package, sorted_files@, extensions@.map_values(|e: String| e@)) =~= keys_of(*package, sorted_files@));
    r
}

} // verus!
