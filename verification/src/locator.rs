//! The library locator: builds the prioritized list of file paths at which a
//! vendor shared library may live, and picks the first existing one.
//!
//! The search policy, in descending priority: every directory named in the
//! primary environment variable, then every directory in the secondary one,
//! then two fixed standard install prefixes; the whole sweep is repeated per
//! candidate version number, preferred versions first. Each directory is
//! extended by the platform's conventional library subdirectory and by the
//! platform-decorated, pointer-width- and version-stamped file name. When no
//! candidate exists at all, the bare decorated file name with no directory is
//! the answer, deferring to the operating system's own search path.

use vstd::prelude::*;
use vstd::string::StrSliceExecFns;
use vstd::string::StringExecFns;

verus! {

/// How the segments of a path-list string, such as the value of a search-path
/// environment variable, are read: split at every separator, keeping empty
/// segments, exactly as the platform's tools do.
pub open spec fn split_on(s: Seq<char>, sep: char) -> Seq<Seq<char>>
    decreases s.len(),
{
    if s.len() == 0 {
        seq![Seq::<char>::empty()]
    } else if s[0] == sep {
        seq![Seq::<char>::empty()] + split_on(s.drop_first(), sep)
    } else {
        let rest = split_on(s.drop_first(), sep);
        seq![seq![s[0]] + rest[0]] + rest.drop_first()
    }
}

/// A split always yields at least one segment.
pub proof fn lemma_split_on_nonempty(s: Seq<char>, sep: char)
    ensures
        split_on(s, sep).len() >= 1,
    decreases s.len(),
{
    if s.len() > 0 && s[0] != sep {
        lemma_split_on_nonempty(s.drop_first(), sep);
    }
}

/// Splitting a string that starts with a separator-free prefix puts that
/// prefix in front of the first segment of the rest's split.
proof fn lemma_split_on_clean_prefix(p: Seq<char>, t: Seq<char>, sep: char)
    requires
        forall|j: int| 0 <= j < p.len() ==> p[j] != sep,
    ensures
        split_on(p + t, sep).len() == split_on(t, sep).len(),
        split_on(p + t, sep)[0] == p + split_on(t, sep)[0],
        split_on(p + t, sep).drop_first() == split_on(t, sep).drop_first(),
    decreases p.len(),
{
    lemma_split_on_nonempty(t, sep);
    if p.len() == 0 {
        assert(p + t =~= t);
    } else {
        let s = p + t;
        assert(s[0] == p[0] && p[0] != sep);
        assert(s.drop_first() =~= p.drop_first() + t);
        lemma_split_on_clean_prefix(p.drop_first(), t, sep);
        let rest = split_on(p.drop_first() + t, sep);
        assert(split_on(s, sep) == seq![seq![s[0]] + rest[0]] + rest.drop_first());
        assert(seq![s[0]] + (p.drop_first() + split_on(t, sep)[0]) =~= p + split_on(t, sep)[0]);
        assert(split_on(s, sep)[0] == p + split_on(t, sep)[0]);
        assert(split_on(s, sep).drop_first() =~= rest.drop_first());
    }
}

/// A separator-free string is a single segment.
proof fn lemma_split_on_clean(s: Seq<char>, sep: char)
    requires
        forall|j: int| 0 <= j < s.len() ==> s[j] != sep,
    ensures
        split_on(s, sep) == seq![s],
    decreases s.len(),
{
    if s.len() > 0 {
        lemma_split_on_clean(s.drop_first(), sep);
        assert(seq![s[0]] + s.drop_first() =~= s);
        assert(split_on(s, sep) =~= seq![s]);
    } else {
        assert(s =~= Seq::<char>::empty());
        assert(split_on(s, sep) =~= seq![s]);
    }
}

/// Splitting at a leading separator yields an empty first segment.
proof fn lemma_split_on_sep_head(t: Seq<char>, sep: char)
    ensures
        split_on(seq![sep] + t, sep) == seq![Seq::<char>::empty()] + split_on(t, sep),
{
    let s = seq![sep] + t;
    assert(s.len() > 0 && s[0] == sep);
    assert(s.drop_first() =~= t);
}

/// Split a path-list string, such as the value of a search-path environment
/// variable, at every occurrence of the platform's separator. Empty segments
/// are kept, exactly as `split_on` describes.
pub fn split_search_path(s: &str, sep: char) -> (r: Vec<String>)
    ensures
        r@.map_values(|seg: String| seg@) == split_on(s@, sep),
{
    let ghost whole: Seq<char> = s@;
    let mut segs: Vec<String> = Vec::new();
    let n: usize = s.unicode_len();
    let mut start: usize = 0;
    let mut i: usize = 0;
    proof {
        assert(whole.skip(0) =~= whole);
        assert(segs@.map_values(|seg: String| seg@) + split_on(whole, sep) =~= split_on(
            whole,
            sep,
        ));
    }
    while i < n
        invariant
            0 <= start <= i <= n,
            n == whole.len(),
            s@ == whole,
            forall|j: int| start <= j < i ==> whole[j] != sep,
            split_on(whole, sep) == segs@.map_values(|seg: String| seg@) + split_on(
                whole.skip(start as int),
                sep,
            ),
        decreases n - i,
    {
        if s.get_char(i) == sep {
            let seg = s.substring_char(start, i).to_owned();
            proof {
                let tail = whole.skip(start as int);
                let clean = whole.subrange(start as int, i as int);
                let after = whole.skip(i as int + 1);
                assert(tail =~= clean + (seq![sep] + after));
                lemma_split_on_clean_prefix(clean, seq![sep] + after, sep);
                lemma_split_on_sep_head(after, sep);
                lemma_split_on_nonempty(after, sep);
                assert(split_on(seq![sep] + after, sep)[0] == Seq::<char>::empty());
                assert(clean + Seq::<char>::empty() =~= clean);
                assert(split_on(tail, sep)[0] == clean);
                assert(split_on(seq![sep] + after, sep).drop_first() =~= split_on(after, sep));
                assert(split_on(tail, sep).drop_first() == split_on(after, sep));
                assert forall|k: int| 0 <= k < split_on(tail, sep).len() implies split_on(
                    tail,
                    sep,
                )[k] == (seq![clean] + split_on(after, sep))[k] by {
                    if k >= 1 {
                        assert(split_on(tail, sep)[k] == split_on(tail, sep).drop_first()[k - 1]);
                    }
                }
                assert(split_on(tail, sep) =~= seq![clean] + split_on(after, sep));
                assert((segs@.push(seg)).map_values(|x: String| x@) =~= segs@.map_values(
                    |x: String| x@,
                ).push(seg@));
                assert(segs@.map_values(|x: String| x@) + split_on(tail, sep) =~= (segs@.push(
                    seg,
                )).map_values(|x: String| x@) + split_on(after, sep));
            }
            segs.push(seg);
            start = i + 1;
        }
        i = i + 1;
    }
    let seg = s.substring_char(start, n).to_owned();
    proof {
        let tail = whole.skip(start as int);
        assert(tail =~= whole.subrange(start as int, n as int));
        lemma_split_on_clean(tail, sep);
        assert((segs@.push(seg)).map_values(|x: String| x@) =~= segs@.map_values(
            |x: String| x@,
        ).push(seg@));
        assert(segs@.map_values(|x: String| x@) + seq![tail] =~= (segs@.push(seg)).map_values(
            |x: String| x@,
        ));
    }
    segs.push(seg);
    segs
}

/// A platform's conventions for naming and placing shared libraries.
pub struct Platform {
    /// What the platform prepends to a shared library's name, such as `lib`.
    pub dll_prefix: String,
    /// The platform's shared-library file suffix, such as `.so` or `.dll`.
    pub dll_suffix: String,
    /// The pointer width baked into the vendor's file names: `64` or `32`.
    pub pointer_width: String,
    /// The conventional library subdirectory of an install prefix.
    pub lib_subdir: String,
    /// What separates entries of a path-list environment variable.
    pub path_list_separator: char,
    /// What separates the components of a path.
    pub dir_separator: String,
}

impl Platform {
    /// The conventions of a 64-bit Unix-like system.
    pub fn unix_64() -> (r: Platform)
        ensures
            r.dll_prefix@ == "lib"@,
            r.dll_suffix@ == ".so"@,
            r.pointer_width@ == "64"@,
            r.lib_subdir@ == "lib64"@,
            r.path_list_separator == ':',
            r.dir_separator@ == "/"@,
    {
        Platform {
            dll_prefix: "lib".to_owned(),
            dll_suffix: ".so".to_owned(),
            pointer_width: "64".to_owned(),
            lib_subdir: "lib64".to_owned(),
            path_list_separator: ':',
            dir_separator: "/".to_owned(),
        }
    }

    /// The conventions of a 64-bit Windows system.
    pub fn windows_64() -> (r: Platform)
        ensures
            r.dll_prefix@ == ""@,
            r.dll_suffix@ == ".dll"@,
            r.pointer_width@ == "64"@,
            r.lib_subdir@ == "bin"@,
            r.path_list_separator == ';',
            r.dir_separator@ == "\\"@,
    {
        Platform {
            dll_prefix: "".to_owned(),
            dll_suffix: ".dll".to_owned(),
            pointer_width: "64".to_owned(),
            lib_subdir: "bin".to_owned(),
            path_list_separator: ';',
            dir_separator: "\\".to_owned(),
        }
    }
}

/// The version-stamped file name a vendor library carries on `p`: the
/// platform prefix, the logical name, the pointer width, an underscore, the
/// version number, and the platform suffix.
pub open spec fn versioned_name(p: Platform, lib: Seq<char>, version: Seq<char>) -> Seq<char> {
    p.dll_prefix@ + lib + p.pointer_width@ + "_"@ + version + p.dll_suffix@
}

/// The bare decorated file name with no directory, pointer width or version:
/// the last resort, resolved by the operating system's own search path.
pub open spec fn fallback_name(p: Platform, lib: Seq<char>) -> Seq<char> {
    p.dll_prefix@ + lib + p.dll_suffix@
}

/// A candidate path: the directory, the platform's library subdirectory, and
/// the file name, joined by the platform's separator. An empty directory
/// yields a relative path, as joining does on every platform.
pub open spec fn joined_path(p: Platform, dir: Seq<char>, file: Seq<char>) -> Seq<char> {
    if dir.len() == 0 {
        p.lib_subdir@ + p.dir_separator@ + file
    } else {
        dir + p.dir_separator@ + p.lib_subdir@ + p.dir_separator@ + file
    }
}

/// Build the version-stamped file name for `lib` and `version` on `p`.
pub fn versioned_file_name(p: &Platform, lib: &str, version: &str) -> (r: String)
    ensures
        r@ == versioned_name(*p, lib@, version@),
{
    let mut s = String::new();
    s.append(p.dll_prefix.as_str());
    s.append(lib);
    s.append(p.pointer_width.as_str());
    s.append("_");
    s.append(version);
    s.append(p.dll_suffix.as_str());
    proof {
        assert(s@ =~= versioned_name(*p, lib@, version@));
    }
    s
}

/// Build the bare decorated file name for `lib` on `p`.
pub fn fallback_file_name(p: &Platform, lib: &str) -> (r: String)
    ensures
        r@ == fallback_name(*p, lib@),
{
    let mut s = String::new();
    s.append(p.dll_prefix.as_str());
    s.append(lib);
    s.append(p.dll_suffix.as_str());
    proof {
        assert(s@ =~= fallback_name(*p, lib@));
    }
    s
}

/// Join a directory, the platform's library subdirectory and a file name.
pub fn joined_candidate(p: &Platform, dir: &str, file: &str) -> (r: String)
    ensures
        r@ == joined_path(*p, dir@, file@),
{
    let mut s = String::new();
    if !dir.is_empty() {
        s.append(dir);
        s.append(p.dir_separator.as_str());
    }
    s.append(p.lib_subdir.as_str());
    s.append(p.dir_separator.as_str());
    s.append(file);
    proof {
        assert(s@ =~= joined_path(*p, dir@, file@));
    }
    s
}

/// The candidate paths one version contributes, one per search directory, in
/// the directories' priority order.
pub open spec fn candidate_row(
    p: Platform,
    lib: Seq<char>,
    version: Seq<char>,
    dirs: Seq<Seq<char>>,
) -> Seq<Seq<char>> {
    dirs.map_values(|d: Seq<char>| joined_path(p, d, versioned_name(p, lib, version)))
}

/// Every candidate path, in priority order: all of the most-preferred
/// version's row first, then the next version's, and so on.
pub open spec fn candidate_list(
    p: Platform,
    lib: Seq<char>,
    versions: Seq<Seq<char>>,
    dirs: Seq<Seq<char>>,
) -> Seq<Seq<char>>
    decreases versions.len(),
{
    if versions.len() == 0 {
        Seq::<Seq<char>>::empty()
    } else {
        candidate_row(p, lib, versions[0], dirs) + candidate_list(
            p,
            lib,
            versions.drop_first(),
            dirs,
        )
    }
}

/// Appending one more version to the list appends exactly that version's row.
proof fn lemma_candidate_list_snoc(
    p: Platform,
    lib: Seq<char>,
    versions: Seq<Seq<char>>,
    dirs: Seq<Seq<char>>,
)
    requires
        versions.len() > 0,
    ensures
        candidate_list(p, lib, versions, dirs) == candidate_list(
            p,
            lib,
            versions.drop_last(),
            dirs,
        ) + candidate_row(p, lib, versions.last(), dirs),
    decreases versions.len(),
{
    let row0 = candidate_row(p, lib, versions[0], dirs);
    if versions.len() == 1 {
        assert(versions.drop_first() =~= Seq::<Seq<char>>::empty());
        assert(versions.drop_last() =~= Seq::<Seq<char>>::empty());
        assert(row0 + Seq::<Seq<char>>::empty() =~= row0);
        assert(Seq::<Seq<char>>::empty() + row0 =~= row0);
    } else {
        let tail = versions.drop_first();
        lemma_candidate_list_snoc(p, lib, tail, dirs);
        assert(versions.drop_last().drop_first() =~= tail.drop_last());
        assert(versions.drop_last()[0] == versions[0]);
        assert(tail.last() == versions.last());
        assert(row0 + (candidate_list(p, lib, tail.drop_last(), dirs) + candidate_row(
            p,
            lib,
            versions.last(),
            dirs,
        )) =~= (row0 + candidate_list(p, lib, tail.drop_last(), dirs)) + candidate_row(
            p,
            lib,
            versions.last(),
            dirs,
        ));
    }
}

/// Build every candidate path for `lib`, for the given version numbers and
/// search directories, in priority order.
pub fn candidate_paths(
    p: &Platform,
    lib: &str,
    versions: &Vec<String>,
    dirs: &Vec<String>,
) -> (r: Vec<String>)
    ensures
        r@.map_values(|c: String| c@) == candidate_list(
            *p,
            lib@,
            versions@.map_values(|v: String| v@),
            dirs@.map_values(|d: String| d@),
        ),
{
    let ghost vviews = versions@.map_values(|v: String| v@);
    let ghost dviews = dirs@.map_values(|d: String| d@);
    let mut out: Vec<String> = Vec::new();
    let mut vi: usize = 0;
    proof {
        assert(vviews.take(0) =~= Seq::<Seq<char>>::empty());
        assert(out@.map_values(|c: String| c@) =~= candidate_list(
            *p,
            lib@,
            vviews.take(0),
            dviews,
        ));
    }
    while vi < versions.len()
        invariant
            vi <= versions.len(),
            vviews == versions@.map_values(|v: String| v@),
            dviews == dirs@.map_values(|d: String| d@),
            out@.map_values(|c: String| c@) == candidate_list(
                *p,
                lib@,
                vviews.take(vi as int),
                dviews,
            ),
        decreases versions.len() - vi,
    {
        let name = versioned_file_name(p, lib, versions[vi].as_str());
        let mut di: usize = 0;
        proof {
            assert(dviews.take(0) =~= Seq::<Seq<char>>::empty());
            assert(candidate_row(*p, lib@, vviews[vi as int], dviews.take(0))
                =~= Seq::<Seq<char>>::empty());
            assert(out@.map_values(|c: String| c@) + candidate_row(
                *p,
                lib@,
                vviews[vi as int],
                dviews.take(0),
            ) =~= out@.map_values(|c: String| c@));
        }
        while di < dirs.len()
            invariant
                di <= dirs.len(),
                vi < versions.len(),
                vviews == versions@.map_values(|v: String| v@),
                dviews == dirs@.map_values(|d: String| d@),
                name@ == versioned_name(*p, lib@, vviews[vi as int]),
                out@.map_values(|c: String| c@) == candidate_list(
                    *p,
                    lib@,
                    vviews.take(vi as int),
                    dviews,
                ) + candidate_row(*p, lib@, vviews[vi as int], dviews.take(di as int)),
            decreases dirs.len() - di,
        {
            let c = joined_candidate(p, dirs[di].as_str(), name.as_str());
            proof {
                assert(dviews.take(di as int + 1) =~= dviews.take(di as int).push(
                    dviews[di as int],
                ));
                assert(candidate_row(*p, lib@, vviews[vi as int], dviews.take(di as int + 1))
                    =~= candidate_row(*p, lib@, vviews[vi as int], dviews.take(di as int)).push(
                    joined_path(*p, dviews[di as int], versioned_name(*p, lib@, vviews[vi as int])),
                ));
                assert((out@.push(c)).map_values(|x: String| x@) =~= out@.map_values(
                    |x: String| x@,
                ).push(c@));
                assert((out@.push(c)).map_values(|x: String| x@) =~= candidate_list(
                    *p,
                    lib@,
                    vviews.take(vi as int),
                    dviews,
                ) + candidate_row(*p, lib@, vviews[vi as int], dviews.take(di as int + 1)));
            }
            out.push(c);
            di = di + 1;
        }
        proof {
            assert(dviews.take(dirs.len() as int) =~= dviews);
            lemma_candidate_list_snoc(*p, lib@, vviews.take(vi as int + 1), dviews);
            assert(vviews.take(vi as int + 1).drop_last() =~= vviews.take(vi as int));
            assert(vviews.take(vi as int + 1).last() == vviews[vi as int]);
        }
        vi = vi + 1;
    }
    proof {
        assert(vviews.take(versions.len() as int) =~= vviews);
    }
    out
}

/// The first candidate, in priority order, that the filesystem holds.
pub open spec fn first_existing(cands: Seq<Seq<char>>, fs: Seq<Seq<char>>) -> Option<Seq<char>>
    decreases cands.len(),
{
    if cands.len() == 0 {
        None
    } else if fs.contains(cands[0]) {
        Some(cands[0])
    } else {
        first_existing(cands.drop_first(), fs)
    }
}

/// The first candidate present in the filesystem wins, whatever comes later.
pub proof fn lemma_first_existing_at(cands: Seq<Seq<char>>, fs: Seq<Seq<char>>, i: int)
    requires
        0 <= i < cands.len(),
        fs.contains(cands[i]),
        forall|j: int| 0 <= j < i ==> !fs.contains(cands[j]),
    ensures
        first_existing(cands, fs) == Some(cands[i]),
    decreases i,
{
    if i > 0 {
        lemma_first_existing_at(cands.drop_first(), fs, i - 1);
    }
}

/// With no candidate present at all, the search comes up empty.
pub proof fn lemma_first_existing_none(cands: Seq<Seq<char>>, fs: Seq<Seq<char>>)
    requires
        forall|j: int| 0 <= j < cands.len() ==> !fs.contains(cands[j]),
    ensures
        first_existing(cands, fs) == None::<Seq<char>>,
    decreases cands.len(),
{
    if cands.len() > 0 {
        lemma_first_existing_none(cands.drop_first(), fs);
    }
}

/// What the locator answers over a given filesystem: the first existing
/// candidate in priority order, or the bare decorated name if none exists.
pub open spec fn locate_spec(
    p: Platform,
    lib: Seq<char>,
    versions: Seq<Seq<char>>,
    dirs: Seq<Seq<char>>,
    fs: Seq<Seq<char>>,
) -> Seq<char> {
    match first_existing(candidate_list(p, lib, versions, dirs), fs) {
        Some(path) => path,
        None => fallback_name(p, lib),
    }
}

/// Whether the modelled filesystem `fs` holds `path`.
fn fs_contains(fs: &Vec<String>, path: &String) -> (r: bool)
    ensures
        r == fs@.map_values(|f: String| f@).contains(path@),
{
    let ghost fsv = fs@.map_values(|f: String| f@);
    let mut k: usize = 0;
    while k < fs.len()
        invariant
            k <= fs.len(),
            fsv == fs@.map_values(|f: String| f@),
            forall|j: int| 0 <= j < k ==> fsv[j] != path@,
        decreases fs.len() - k,
    {
        let hit = fs[k] == *path;
        proof {
            assert(fsv[k as int] == fs@[k as int]@);
        }
        if hit {
            proof {
                assert(fsv.contains(path@)) by {
                    assert(fsv[k as int] == path@);
                }
            }
            return true;
        }
        k = k + 1;
    }
    false
}

/// Find `lib` in the modelled filesystem `fs`: try every candidate path in
/// priority order and answer the first that `fs` holds, or the bare decorated
/// name if `fs` holds none.
pub fn locate_in(
    p: &Platform,
    lib: &str,
    versions: &Vec<String>,
    dirs: &Vec<String>,
    fs: &Vec<String>,
) -> (r: String)
    ensures
        r@ == locate_spec(
            *p,
            lib@,
            versions@.map_values(|v: String| v@),
            dirs@.map_values(|d: String| d@),
            fs@.map_values(|f: String| f@),
        ),
{
    let ghost fsv = fs@.map_values(|f: String| f@);
    let ghost clist = candidate_list(
        *p,
        lib@,
        versions@.map_values(|v: String| v@),
        dirs@.map_values(|d: String| d@),
    );
    let cands = candidate_paths(p, lib, versions, dirs);
    let mut k: usize = 0;
    while k < cands.len()
        invariant
            k <= cands.len(),
            fsv == fs@.map_values(|f: String| f@),
            cands@.map_values(|c: String| c@) == clist,
            clist == candidate_list(
                *p,
                lib@,
                versions@.map_values(|v: String| v@),
                dirs@.map_values(|d: String| d@),
            ),
            forall|j: int| 0 <= j < k ==> !fsv.contains(clist[j]),
        decreases cands.len() - k,
    {
        if fs_contains(fs, &cands[k]) {
            proof {
                lemma_first_existing_at(clist, fsv, k as int);
            }
            return cands[k].clone();
        }
        k = k + 1;
    }
    proof {
        lemma_first_existing_none(clist, fsv);
    }
    fallback_file_name(p, lib)
}

/// Law: locator priority. For the most-preferred version, the earliest search
/// directory holding the file wins, whatever later directories, or rows of
/// lesser versions, also hold.
pub proof fn lemma_locator_priority(
    p: Platform,
    lib: Seq<char>,
    versions: Seq<Seq<char>>,
    dirs: Seq<Seq<char>>,
    fs: Seq<Seq<char>>,
    i: int,
)
    requires
        versions.len() > 0,
        0 <= i < dirs.len(),
        fs.contains(joined_path(p, dirs[i], versioned_name(p, lib, versions[0]))),
        forall|j: int| 0 <= j < i ==> !fs.contains(
            joined_path(p, dirs[j], versioned_name(p, lib, versions[0])),
        ),
    ensures
        locate_spec(p, lib, versions, dirs, fs) == joined_path(
            p,
            dirs[i],
            versioned_name(p, lib, versions[0]),
        ),
{
    let clist = candidate_list(p, lib, versions, dirs);
    let row0 = candidate_row(p, lib, versions[0], dirs);
    assert(clist == row0 + candidate_list(p, lib, versions.drop_first(), dirs));
    assert(forall|j: int| 0 <= j < dirs.len() ==> clist[j] == row0[j]);
    lemma_first_existing_at(clist, fs, i);
}

/// Law: with no candidate present anywhere, the locator yields the bare
/// platform-decorated file name with no directory component.
pub proof fn lemma_locator_fallback(
    p: Platform,
    lib: Seq<char>,
    versions: Seq<Seq<char>>,
    dirs: Seq<Seq<char>>,
    fs: Seq<Seq<char>>,
)
    requires
        forall|k: int| 0 <= k < candidate_list(p, lib, versions, dirs).len() ==> !fs.contains(
            #[trigger] candidate_list(p, lib, versions, dirs)[k],
        ),
    ensures
        locate_spec(p, lib, versions, dirs, fs) == fallback_name(p, lib),
{
    lemma_first_existing_none(candidate_list(p, lib, versions, dirs), fs);
}

/// The version numbers tried, most preferred first.
pub fn default_versions() -> (r: Vec<String>)
    ensures
        r@.map_values(|v: String| v@) == seq!["100"@, "90"@, "80"@, "70"@],
{
    let mut v: Vec<String> = Vec::new();
    v.push("100".to_owned());
    v.push("90".to_owned());
    v.push("80".to_owned());
    v.push("70".to_owned());
    proof {
        assert(v@.map_values(|x: String| x@) =~= seq!["100"@, "90"@, "80"@, "70"@]);
    }
    v
}

/// The standard install prefixes tried after the environment's directories.
pub fn default_install_dirs() -> (r: Vec<String>)
    ensures
        r@.map_values(|d: String| d@) == seq!["/usr/local/cuda"@, "/opt/cuda"@],
{
    let mut v: Vec<String> = Vec::new();
    v.push("/usr/local/cuda".to_owned());
    v.push("/opt/cuda".to_owned());
    proof {
        assert(v@.map_values(|x: String| x@) =~= seq!["/usr/local/cuda"@, "/opt/cuda"@]);
    }
    v
}

/// The full list of search directories: the primary environment variable's
/// directories, then the secondary's, then the standard install prefixes.
pub open spec fn search_dirs_spec(
    primary: Option<Seq<char>>,
    secondary: Option<Seq<char>>,
    sep: char,
) -> Seq<Seq<char>> {
    (match primary {
        Some(s) => split_on(s, sep),
        None => Seq::<Seq<char>>::empty(),
    }) + (match secondary {
        Some(s) => split_on(s, sep),
        None => Seq::<Seq<char>>::empty(),
    }) + seq!["/usr/local/cuda"@, "/opt/cuda"@]
}

/// Assemble the search directories from the values of the two environment
/// variables, absent ones skipped, followed by the standard install prefixes.
pub fn search_dirs(
    primary: Option<&String>,
    secondary: Option<&String>,
    sep: char,
) -> (r: Vec<String>)
    ensures
        r@.map_values(|d: String| d@) == search_dirs_spec(
            match primary {
                Some(s) => Some(s@),
                None => None,
            },
            match secondary {
                Some(s) => Some(s@),
                None => None,
            },
            sep,
        ),
{
    let mut out: Vec<String> = Vec::new();
    if let Some(s) = primary {
        let mut segs = split_search_path(s.as_str(), sep);
        out.append(&mut segs);
    }
    let ghost after_primary = out@;
    if let Some(s) = secondary {
        let mut segs = split_search_path(s.as_str(), sep);
        out.append(&mut segs);
    }
    let mut std_dirs = default_install_dirs();
    out.append(&mut std_dirs);
    proof {
        assert(out@.map_values(|d: String| d@) =~= search_dirs_spec(
            match primary {
                Some(s) => Some(s@),
                None => None,
            },
            match secondary {
                Some(s) => Some(s@),
                None => None,
            },
            sep,
        ));
    }
    out
}

} // verus!

