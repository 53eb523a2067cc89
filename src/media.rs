use vstd::prelude::*;
use vstd::string::*;

verus! {

/// Both `/` and `\` end a directory component, so that paths built on any
/// platform split the same way.
pub open spec fn is_separator(c: char) -> bool {
    c == '/' || c == '\\'
}

/// Number of characters up to and including the last separator of `p`
/// (zero when `p` holds none).
pub open spec fn name_start(p: Seq<char>) -> nat
    decreases p.len(),
{
    if p.len() == 0 {
        0
    } else if is_separator(p.last()) {
        p.len()
    } else {
        name_start(p.drop_last())
    }
}

/// Index of the last `.` of `s`, or -1 when it has none.
pub open spec fn last_dot(s: Seq<char>) -> int
    decreases s.len(),
{
    if s.len() == 0 {
        -1
    } else if s.last() == '.' {
        s.len() - 1
    } else {
        last_dot(s.drop_last())
    }
}

/// The directory part of a path, with its trailing separator.
pub open spec fn parent_part(p: Seq<char>) -> Seq<char> {
    p.subrange(0, name_start(p) as int)
}

/// The last component of a path.
pub open spec fn file_name(p: Seq<char>) -> Seq<char> {
    p.subrange(name_start(p) as int, p.len() as int)
}

/// A file name has an extension when it holds a `.` that is not its first
/// character.
pub open spec fn has_extension(name: Seq<char>) -> bool {
    last_dot(name) > 0
}

pub open spec fn file_stem(name: Seq<char>) -> Seq<char> {
    if has_extension(name) {
        name.subrange(0, last_dot(name))
    } else {
        name
    }
}

/// The extension of a file name, or `webm` when it has none.
pub open spec fn extension_or_default(name: Seq<char>) -> Seq<char> {
    if has_extension(name) {
        name.subrange(last_dot(name) + 1, name.len() as int)
    } else {
        "webm"@
    }
}

/// `p` with `addition` put between the stem and the extension of its file name.
pub open spec fn with_addition(p: Seq<char>, addition: Seq<char>) -> Seq<char> {
    let name = file_name(p);
    parent_part(p) + file_stem(name) + addition + "."@ + extension_or_default(name)
}

pub open spec fn captioned_path(p: Seq<char>) -> Seq<char> {
    with_addition(p, "_text"@)
}

pub open spec fn scaled_path(p: Seq<char>) -> Seq<char> {
    with_addition(p, "_scaled"@)
}

/// A logical clip, named by the path of its downloaded file. The files made
/// from it by the transcoder are named after that path.
pub struct MediaFile(pub String);

impl View for MediaFile {
    type V = Seq<char>;

    open spec fn view(&self) -> Seq<char> {
        self.0@
    }
}

fn separator_char(c: char) -> (r: bool)
    ensures
        r == is_separator(c),
{
    c == '/' || c == '\\'
}

/// Position where the file name of `p` starts.
fn find_name_start(p: &str) -> (k: usize)
    ensures
        k == name_start(p@),
        k <= p@.len(),
{
    let n = p.unicode_len();
    let mut i: usize = n;
    assert(p@.subrange(0, n as int) =~= p@);
    while i > 0
        invariant
            i <= n,
            n == p@.len(),
            name_start(p@) == name_start(p@.subrange(0, i as int)),
        decreases i,
    {
        let ghost prefix = p@.subrange(0, i as int);
        assert(prefix.drop_last() =~= p@.subrange(0, i - 1));
        if separator_char(p.get_char(i - 1)) {
            return i;
        }
        i = i - 1;
    }
    assert(p@.subrange(0, 0) =~= Seq::<char>::empty());
    0
}

/// Index of the last `.` of `s`, if there is one.
fn find_last_dot(s: &str) -> (r: Option<usize>)
    ensures
        match r {
            Some(i) => i == last_dot(s@) && i < s@.len(),
            None => last_dot(s@) == -1,
        },
{
    let n = s.unicode_len();
    let mut i: usize = n;
    assert(s@.subrange(0, n as int) =~= s@);
    while i > 0
        invariant
            i <= n,
            n == s@.len(),
            last_dot(s@) == last_dot(s@.subrange(0, i as int)),
        decreases i,
    {
        let ghost prefix = s@.subrange(0, i as int);
        assert(prefix.drop_last() =~= s@.subrange(0, i - 1));
        if s.get_char(i - 1) == '.' {
            return Some(i - 1);
        }
        i = i - 1;
    }
    assert(s@.subrange(0, 0) =~= Seq::<char>::empty());
    None
}

/// The path with its extension replaced by `ext` (or `ext` added when it
/// has none).
pub open spec fn with_extension(p: Seq<char>, ext: Seq<char>) -> Seq<char> {
    parent_part(p) + file_stem(file_name(p)) + "."@ + ext
}

/// Splits `p` into its directory part, the stem of its file name, and the
/// extension, if any.
fn split_path(p: &str) -> (r: (&str, &str, Option<&str>))
    ensures
        r.0@ == parent_part(p@),
        r.1@ == file_stem(file_name(p@)),
        match r.2 {
            Some(e) => has_extension(file_name(p@)) && e@ == extension_or_default(file_name(p@)),
            None => !has_extension(file_name(p@)),
        },
{
    let n = p.unicode_len();
    let k = find_name_start(p);
    let parent = p.substring_char(0, k);
    let name = p.substring_char(k, n);
    let m = name.unicode_len();
    match find_last_dot(name) {
        Some(d) => {
            if d > 0 {
                (parent, name.substring_char(0, d), Some(name.substring_char(d + 1, m)))
            } else {
                (parent, name, None)
            }
        },
        None => (parent, name, None),
    }
}

/// `p` with its extension replaced by `ext` (or `ext` added).
pub fn replace_extension(p: &str, ext: &str) -> (r: String)
    ensures
        r@ == with_extension(p@, ext@),
{
    let (parent, stem, _) = split_path(p);
    let mut r = String::from_str(parent);
    r.append(stem);
    r.append(".");
    r.append(ext);
    r
}

impl MediaFile {
    pub fn new(path: String) -> (m: MediaFile)
        ensures
            m@ == path@,
    {
        MediaFile(path)
    }

    /// The file with "_text" added to its name.
    pub fn with_text(&self) -> (r: String)
        ensures
            r@ == captioned_path(self@),
    {
        self.add_to_file_name("_text")
    }

    /// The file with "_scaled" added to its name.
    pub fn scaled(&self) -> (r: String)
        ensures
            r@ == scaled_path(self@),
    {
        self.add_to_file_name("_scaled")
    }

    /// The path of the file itself.
    pub fn base(&self) -> (r: String)
        ensures
            r@ == self@,
    {
        self.0.clone()
    }

    /// Adds `addition` to the file name, before the extension (`webm` when
    /// the file has none).
    fn add_to_file_name(&self, addition: &str) -> (r: String)
        ensures
            r@ == with_addition(self@, addition@),
    {
        let (parent, stem, ext) = split_path(self.0.as_str());
        let mut r = String::from_str(parent);
        r.append(stem);
        r.append(addition);
        r.append(".");
        match ext {
            Some(e) => r.append(e),
            None => r.append("webm"),
        }
        r
    }
}

/// The files derived from a clip depend on its path alone, and neither the
/// captioned nor the scaled file is the clip itself or the other one.
pub proof fn lemma_derived_paths(base: Seq<char>, same: Seq<char>)
    requires
        same == base,
    ensures
        captioned_path(same) == captioned_path(base),
        scaled_path(same) == scaled_path(base),
        captioned_path(base) != base,
        scaled_path(base) != base,
        captioned_path(base) != scaled_path(base),
{
    reveal_strlit("_text");
    reveal_strlit("_scaled");
    reveal_strlit(".");
    reveal_strlit("webm");
    let name = file_name(base);
    let head = parent_part(base) + file_stem(name);
    lemma_last_dot_bound(name);
    lemma_name_start_bound(base);
    assert(captioned_path(base).len() > base.len());
    assert(scaled_path(base).len() > base.len());
    assert(captioned_path(base)[head.len() as int + 1] == 't');
    assert(scaled_path(base)[head.len() as int + 1] == 's');
}

/// A derived path is longer than the path by at least the addition.
pub proof fn lemma_addition_len(p: Seq<char>, addition: Seq<char>)
    ensures
        with_addition(p, addition).len() >= p.len() + addition.len(),
{
    reveal_strlit(".");
    reveal_strlit("webm");
    lemma_last_dot_bound(file_name(p));
    lemma_name_start_bound(p);
}

proof fn lemma_name_start_bound(p: Seq<char>)
    ensures
        name_start(p) <= p.len(),
    decreases p.len(),
{
    if p.len() > 0 {
        lemma_name_start_bound(p.drop_last());
    }
}

proof fn lemma_last_dot_bound(s: Seq<char>)
    ensures
        -1 <= last_dot(s) < s.len(),
        last_dot(s) >= 0 ==> s[last_dot(s)] == '.',
    decreases s.len(),
{
    if s.len() > 0 && s.last() != '.' {
        lemma_last_dot_bound(s.drop_last());
    }
}

} // verus!
