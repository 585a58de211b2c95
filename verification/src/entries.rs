//! The two kinds of entry the page lists: extensions published to the
//! remote index, and dev extensions built from a local source tree.

use vstd::prelude::*;

use vstd::string::StringExecFns;

verus! {

/// One extension as the remote index describes it. `version` is the latest
/// published version, not necessarily the installed one.
#[derive(Debug, PartialEq, Eq)]
pub struct RemoteExtension {
    pub id: String,
    pub name: String,
    pub version: String,
    pub authors: Vec<String>,
    pub description: Option<String>,
    pub repository: String,
    pub download_count: u64,
}

/// One dev extension, read from its local manifest.
#[derive(Debug, PartialEq, Eq)]
pub struct DevExtension {
    pub id: String,
    pub name: String,
    pub version: String,
    pub authors: Vec<String>,
    pub description: Option<String>,
    pub repository: Option<String>,
}

/// Field-for-field equality of two dev extensions, comparing the author
/// list by its contents.
pub open spec fn same_dev_entry(a: DevExtension, b: DevExtension) -> bool {
    &&& a.id == b.id
    &&& a.name == b.name
    &&& a.version == b.version
    &&& a.authors@ == b.authors@
    &&& a.description == b.description
    &&& a.repository == b.repository
}

/// Copies a list of strings element by element.
fn clone_strings(v: &Vec<String>) -> (r: Vec<String>)
    ensures
        r@ == v@,
{
    let mut r: Vec<String> = Vec::new();
    for i in 0..v.len()
        invariant
            r@ =~= v@.take(i as int),
    {
        r.push(v[i].clone());
    }
    proof {
        assert(v@.take(v@.len() as int) =~= v@);
    }
    r
}

impl Clone for DevExtension {
    /// The copy agrees with the original on every field.
    fn clone(&self) -> (r: Self)
        ensures
            same_dev_entry(r, *self),
    {
        DevExtension {
            id: self.id.clone(),
            name: self.name.clone(),
            version: self.version.clone(),
            authors: clone_strings(&self.authors),
            description: match &self.description {
                Some(d) => Some(d.clone()),
                None => None,
            },
            repository: match &self.repository {
                Some(u) => Some(u.clone()),
                None => None,
            },
        }
    }
}

/// The strings a name search runs over: each dev extension's name, in
/// order, so that a match's position is the entry's index.
pub fn dev_match_candidate_names(dev: &Vec<DevExtension>) -> (names: Vec<String>)
    ensures
        names@.len() == dev@.len(),
        forall|j: int| 0 <= j < names@.len() ==> (#[trigger] names@[j]) == dev@[j].name,
{
    let mut names: Vec<String> = Vec::new();
    for i in 0..dev.len()
        invariant
            names@.len() == i,
            forall|j: int| 0 <= j < names@.len() ==> (#[trigger] names@[j]) == dev@[j].name,
    {
        names.push(dev[i].name.clone());
    }
    names
}

/// Keeps the dev extensions a name search matched, in match order.
/// `matched` holds the index of each matching entry, best match first, as
/// the fuzzy matcher ranked them.
pub fn select_matched_dev_extensions(dev: &Vec<DevExtension>, matched: &Vec<usize>) -> (r: Vec<
    DevExtension,
>)
    requires
        forall|j: int| 0 <= j < matched@.len() ==> (#[trigger] matched@[j]) < dev@.len(),
    ensures
        r@.len() == matched@.len(),
        forall|j: int|
            0 <= j < r@.len() ==> same_dev_entry(#[trigger] r@[j], dev@[matched@[j] as int]),
{
    let mut r: Vec<DevExtension> = Vec::new();
    for i in 0..matched.len()
        invariant
            forall|j: int| 0 <= j < matched@.len() ==> (#[trigger] matched@[j]) < dev@.len(),
            r@.len() == i,
            forall|j: int|
                0 <= j < r@.len() ==> same_dev_entry(#[trigger] r@[j], dev@[matched@[j] as int]),
    {
        r.push(dev[matched[i]].clone());
    }
    r
}

/// `names` joined by `sep`, with no leading or trailing separator.
pub open spec fn joined_names(names: Seq<String>, sep: Seq<char>) -> Seq<char>
    decreases names.len(),
{
    if names.len() == 0 {
        Seq::empty()
    } else if names.len() == 1 {
        names[0]@
    } else {
        joined_names(names.drop_last(), sep) + sep + names.last()@
    }
}

/// The author line of an entry's card: a singular or plural heading,
/// then the authors separated by commas.
pub open spec fn author_line_spec(authors: Seq<String>) -> Seq<char> {
    (if authors.len() > 1 {
        "Authors"@
    } else {
        "Author"@
    }) + ": "@ + joined_names(authors, ", "@)
}

/// Builds the author line shown on an entry's card.
pub fn author_line(authors: &Vec<String>) -> (r: String)
    ensures
        r@ == author_line_spec(authors@),
{
    let mut r = if authors.len() > 1 {
        String::from_str("Authors")
    } else {
        String::from_str("Author")
    };
    r.append(": ");
    let ghost head = r@;
    for i in 0..authors.len()
        invariant
            r@ =~= head + joined_names(authors@.take(i as int), ", "@),
            head == (if authors@.len() > 1 {
                "Authors"@
            } else {
                "Author"@
            }) + ": "@,
    {
        if i > 0 {
            r.append(", ");
        }
        r.append(authors[i].as_str());
        proof {
            assert(authors@.take(i + 1).drop_last() =~= authors@.take(i as int));
            assert(authors@.take(i + 1).last() == authors@[i as int]);
        }
    }
    proof {
        assert(authors@.take(authors@.len() as int) =~= authors@);
        assert(r@ =~= author_line_spec(authors@));
    }
    r
}

/// The version heading of an entry's card: the version prefixed with `v`.
pub fn version_label(version: &String) -> (r: String)
    ensures
        r@ == "v"@ + version@,
{
    String::from_str("v").concat(version.as_str())
}

} // verus!
