//! Choosing a template among the files of the template directory.
//!
//! Paths are given as their components, each as the bytes of its encoded form;
//! a canonical path has every symbolic link resolved.
use vstd::prelude::*;

verus! {

/// What the directory listing tells about one direct entry of the template directory.
pub struct EntryInfo {
    /// The entry is a regular file (following symbolic links).
    pub is_file: bool,
    /// The extension of the entry's file name, if it has one.
    pub extension: Option<Vec<u8>>,
    /// The entry's canonical path, where it could be computed.
    pub canonical: Option<Vec<Vec<u8>>>,
}

pub struct EntryView {
    pub is_file: bool,
    pub extension: Option<Seq<u8>>,
    pub canonical: Option<Seq<Seq<u8>>>,
}

pub open spec fn path_view(p: Vec<Vec<u8>>) -> Seq<Seq<u8>> {
    p@.map_values(|c: Vec<u8>| c@)
}

pub open spec fn opt_path_view(p: Option<Vec<Vec<u8>>>) -> Option<Seq<Seq<u8>>> {
    match p {
        Some(q) => Some(path_view(q)),
        None => None,
    }
}

impl View for EntryInfo {
    type V = EntryView;

    open spec fn view(&self) -> EntryView {
        EntryView {
            is_file: self.is_file,
            extension: match self.extension {
                Some(e) => Some(e@),
                None => None,
            },
            canonical: opt_path_view(self.canonical),
        }
    }
}

pub open spec fn entries_view(entries: Seq<EntryInfo>) -> Seq<EntryView> {
    entries.map_values(|e: EntryInfo| e@)
}

/// The template that resolution settled on.
#[derive(PartialEq, Eq, Structural, Clone, Copy, Debug)]
pub enum TemplateChoice {
    /// The file named exactly `<filename>.<extension>`.
    Exact,
    /// The directory entry at this position of the listing.
    Entry(usize),
}

/// `path` lies strictly below `root`: `root`'s components are a proper prefix of its own.
pub open spec fn strictly_within(root: Seq<Seq<u8>>, path: Seq<Seq<u8>>) -> bool {
    root.len() < path.len() && path.subrange(0, root.len() as int) == root
}

/// Both paths are known and the second lies strictly below the first.
pub open spec fn both_within(root: Option<Seq<Seq<u8>>>, path: Option<Seq<Seq<u8>>>) -> bool {
    match (root, path) {
        (Some(d), Some(c)) => strictly_within(d, c),
        _ => false,
    }
}

/// An entry that may serve as a template for `ext`: a regular file with that
/// extension whose canonical path lies inside the canonical template directory.
pub open spec fn eligible(e: EntryView, root: Seq<Seq<u8>>, ext: Seq<u8>) -> bool {
    &&& e.is_file
    &&& e.extension == Some(ext)
    &&& e.canonical matches Some(c) && strictly_within(root, c)
}

/// `i` is the position of the first eligible entry.
pub open spec fn first_eligible(entries: Seq<EntryView>, root: Seq<Seq<u8>>, ext: Seq<u8>, i: int) -> bool {
    &&& 0 <= i < entries.len()
    &&& eligible(entries[i], root, ext)
    &&& forall|j: int| 0 <= j < i ==> !eligible(#[trigger] entries[j], root, ext)
}

/// `r` is the outcome of resolving a template for `ext`, given the canonical
/// template directory (if it could be computed), the canonical path of the exact
/// candidate (if it exists) and the directory listing.
pub open spec fn resolves_to(
    root: Option<Seq<Seq<u8>>>,
    exact: Option<Seq<Seq<u8>>>,
    entries: Seq<EntryView>,
    ext: Seq<u8>,
    r: Option<TemplateChoice>,
) -> bool {
    match root {
        None => r is None,
        Some(root) => if exact matches Some(c) && strictly_within(root, c) {
            r == Some(TemplateChoice::Exact)
        } else {
            match r {
                Some(TemplateChoice::Entry(i)) => first_eligible(entries, root, ext, i as int),
                Some(TemplateChoice::Exact) => false,
                None => forall|j: int| 0 <= j < entries.len() ==> !eligible(#[trigger] entries[j], root, ext),
            }
        },
    }
}

/// Whether two byte strings are equal.
fn bytes_equal(a: &Vec<u8>, b: &[u8]) -> (r: bool)
    ensures
        r == (a@ == b@),
{
    if a.len() != b.len() {
        return false;
    }
    let mut i: usize = 0;
    while i < a.len()
        invariant
            a@.len() == b@.len(),
            i <= a@.len(),
            forall|j: int| 0 <= j < i ==> a@[j] == b@[j],
        decreases a@.len() - i,
    {
        if a[i] != b[i] {
            return false;
        }
        i = i + 1;
    }
    assert(a@ =~= b@);
    true
}

/// Whether `path` lies strictly below `root`, compared component by component.
pub fn is_strictly_within(root: &Vec<Vec<u8>>, path: &Vec<Vec<u8>>) -> (r: bool)
    ensures
        r == strictly_within(path_view(*root), path_view(*path)),
{
    if root.len() >= path.len() {
        return false;
    }
    let mut i: usize = 0;
    while i < root.len()
        invariant
            root@.len() < path@.len(),
            i <= root@.len(),
            forall|j: int| 0 <= j < i ==> root@[j]@ == path@[j]@,
        decreases root@.len() - i,
    {
        if !bytes_equal(&root[i], path[i].as_slice()) {
            assert(path_view(*path).subrange(0, root@.len() as int)[i as int] != path_view(*root)[i as int]);
            return false;
        }
        i = i + 1;
    }
    assert(path_view(*path).subrange(0, root@.len() as int) =~= path_view(*root));
    true
}

/// Whether a directory entry may serve as the template for `extension`.
fn is_eligible(e: &EntryInfo, root: &Vec<Vec<u8>>, extension: &[u8]) -> (r: bool)
    ensures
        r == eligible(e@, path_view(*root), extension@),
{
    if !e.is_file {
        return false;
    }
    let ext_ok = match &e.extension {
        Some(x) => bytes_equal(x, extension),
        None => false,
    };
    if !ext_ok {
        return false;
    }
    match &e.canonical {
        Some(c) => is_strictly_within(root, c),
        None => false,
    }
}

/// Resolves the template for a requested extension. The exact candidate wins when
/// it lies inside the template directory; otherwise the first eligible entry of the
/// listing is taken; otherwise there is no template. Nothing is resolved when the
/// template directory has no canonical path.
pub fn find_template_file(
    canonical_dir: &Option<Vec<Vec<u8>>>,
    exact: &Option<Vec<Vec<u8>>>,
    entries: &Vec<EntryInfo>,
    extension: &[u8],
) -> (r: Option<TemplateChoice>)
    ensures
        resolves_to(opt_path_view(*canonical_dir), opt_path_view(*exact), entries_view(entries@), extension@, r),
{
    let root = match canonical_dir {
        Some(root) => root,
        None => return None,
    };
    if let Some(c) = exact {
        if is_strictly_within(root, c) {
            return Some(TemplateChoice::Exact);
        }
    }
    let ghost ev = entries_view(entries@);
    let mut i: usize = 0;
    while i < entries.len()
        invariant
            ev == entries_view(entries@),
            *canonical_dir == Some(*root),
            !(opt_path_view(*exact) matches Some(c) && strictly_within(path_view(*root), c)),
            i <= entries@.len(),
            forall|j: int| 0 <= j < i ==> !eligible(#[trigger] ev[j], path_view(*root), extension@),
        decreases entries@.len() - i,
    {
        if is_eligible(&entries[i], root, extension) {
            return Some(TemplateChoice::Entry(i));
        }
        i = i + 1;
    }
    None
}

/// When the exact candidate exists and lies inside the template directory, it is
/// the resolved template.
pub proof fn lemma_exact_match_wins(
    root: Seq<Seq<u8>>,
    exact: Seq<Seq<u8>>,
    entries: Seq<EntryView>,
    ext: Seq<u8>,
    r: Option<TemplateChoice>,
)
    requires
        strictly_within(root, exact),
        resolves_to(Some(root), Some(exact), entries, ext, r),
    ensures
        r == Some(TemplateChoice::Exact),
{
}

/// When the exact candidate is absent but the directory holds a regular file with
/// the requested extension inside it, an entry with that extension is resolved
/// (the first such, so at or before that file).
pub proof fn lemma_same_extension_fallback(
    root: Seq<Seq<u8>>,
    entries: Seq<EntryView>,
    ext: Seq<u8>,
    k: int,
    r: Option<TemplateChoice>,
)
    requires
        0 <= k < entries.len(),
        eligible(entries[k], root, ext),
        resolves_to(Some(root), None, entries, ext, r),
    ensures
        r matches Some(TemplateChoice::Entry(i)) && i <= k && entries[i as int].extension == Some(ext)
            && eligible(entries[i as int], root, ext),
{
    if let Some(TemplateChoice::Entry(i)) = r {
        if k < i {
            assert(!eligible(entries[k], root, ext));
        }
    }
}

/// When the exact candidate is absent and no entry has the requested extension,
/// there is no template.
pub proof fn lemma_no_template(
    root: Option<Seq<Seq<u8>>>,
    entries: Seq<EntryView>,
    ext: Seq<u8>,
    r: Option<TemplateChoice>,
)
    requires
        forall|j: int| 0 <= j < entries.len() ==> (#[trigger] entries[j]).extension != Some(ext),
        resolves_to(root, None, entries, ext, r),
    ensures
        r is None,
{
    if let Some(root) = root {
        if let Some(TemplateChoice::Entry(i)) = r {
            assert(entries[i as int].extension != Some(ext));
        }
    }
}

/// Whatever is resolved lies strictly inside the template directory once every
/// symbolic link is followed: a link that leads outside is never resolved, even
/// under the exact name.
pub proof fn lemma_resolved_is_contained(
    root: Option<Seq<Seq<u8>>>,
    exact: Option<Seq<Seq<u8>>>,
    entries: Seq<EntryView>,
    ext: Seq<u8>,
    r: Option<TemplateChoice>,
)
    requires
        resolves_to(root, exact, entries, ext, r),
    ensures
        r == Some(TemplateChoice::Exact) ==> both_within(root, exact),
        r matches Some(TemplateChoice::Entry(i)) ==> i < entries.len() && both_within(
            root,
            entries[i as int].canonical,
        ),
{
}

} // verus!
