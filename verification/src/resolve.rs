//! Finding a profile's file among the search roots.
//!
//! The roots are directories in an order of precedence. The search asks for
//! the listing of one root at a time, first root first, and stops at the
//! first root that holds a regular file with the expected name. Listing a
//! directory and reading a file are the caller's work: this module decides
//! what is asked next, and says which file is the profile's.

use vstd::prelude::*;

verus! {

/// One entry of a directory, as its listing gives it.
#[derive(Debug)]
pub struct Entry {
    /// The entry's name, `None` where the name is not valid Unicode.
    pub name: Option<String>,
    /// Whether the entry is a regular file: not a directory, not a symbolic
    /// link, not a device.
    pub is_file: bool,
}

/// What came of listing a search root.
#[derive(Debug)]
pub enum Listing {
    /// The root could not be listed: it is missing or may not be read.
    Unavailable,
    /// The entries of the root, in the order in which they were listed.
    Entries(Vec<Entry>),
}

/// What the search asks of its caller next.
#[derive(Debug, Clone, Copy, PartialEq, Eq, Structural)]
pub enum Step {
    /// List the root with this index and hand the listing to [`next_step`].
    Enumerate(usize),
    /// The profile is the file at this root and this position of the root's
    /// listing: read it.
    Read(usize, usize),
    /// Every root was searched and none holds the profile.
    NotFound,
}

/// A [`Step`] as contracts speak of it, with mathematical indices.
pub enum StepView {
    Enumerate(int),
    Read(int, int),
    NotFound,
}

impl View for Step {
    type V = StepView;

    open spec fn view(&self) -> StepView {
        match *self {
            Step::Enumerate(root) => StepView::Enumerate(root as int),
            Step::Read(root, entry) => StepView::Read(root as int, entry as int),
            Step::NotFound => StepView::NotFound,
        }
    }
}

/// The name of the file that holds the profile `profile_name`.
pub open spec fn expected_filename(profile_name: Seq<char>) -> Seq<char> {
    profile_name + ".profile"@
}

impl Entry {
    /// The entry is the profile's file: a regular file whose name is
    /// `filename`, character for character.
    pub open spec fn is_match(self, filename: Seq<char>) -> bool {
        &&& self.is_file
        &&& self.name matches Some(name)
        &&& name@ == filename
    }
}

impl Listing {
    /// The entries that a listing gives. A root that could not be listed
    /// gives none.
    pub open spec fn entries(self) -> Seq<Entry> {
        match self {
            Listing::Unavailable => Seq::empty(),
            Listing::Entries(entries) => entries@,
        }
    }
}

/// The entry at `index` is a match and no entry before it is one.
pub open spec fn is_first_match(entries: Seq<Entry>, filename: Seq<char>, index: int) -> bool {
    &&& 0 <= index < entries.len()
    &&& entries[index].is_match(filename)
    &&& forall|earlier: int| 0 <= earlier < index ==> !(#[trigger] entries[earlier]).is_match(filename)
}

/// The position of the first match among the entries, `None` where no entry
/// is a match.
pub open spec fn first_match(entries: Seq<Entry>, filename: Seq<char>) -> Option<int> {
    if exists|index: int| is_first_match(entries, filename, index) {
        Some(choose|index: int| is_first_match(entries, filename, index))
    } else {
        None
    }
}

/// The root at `root` holds a match and no root before it holds one.
pub open spec fn is_first_root(listings: Seq<Listing>, filename: Seq<char>, root: int) -> bool {
    &&& 0 <= root < listings.len()
    &&& first_match(listings[root].entries(), filename) is Some
    &&& forall|earlier: int|
        0 <= earlier < root ==> first_match(
            (#[trigger] listings[earlier]).entries(),
            filename,
        ) is None
}

/// Where the profile's file is, given the listing of every root in the order
/// of precedence: the first root that holds a match, and the first match in
/// that root. `None` where no root holds a match.
pub open spec fn located(listings: Seq<Listing>, filename: Seq<char>) -> Option<(int, int)> {
    if exists|root: int| is_first_root(listings, filename, root) {
        let root = choose|root: int| is_first_root(listings, filename, root);
        Some((root, first_match(listings[root].entries(), filename)->Some_0))
    } else {
        None
    }
}

/// The step with which a search among `roots` roots begins.
pub open spec fn step_at_start(roots: int) -> StepView {
    if roots > 0 {
        StepView::Enumerate(0)
    } else {
        StepView::NotFound
    }
}

/// The step that follows the listing of the root `root`: read the first
/// match where the listing holds one, else go on to the next root, and give
/// up after the last.
pub open spec fn step_after(roots: int, root: int, listing: Listing, filename: Seq<char>) -> StepView {
    match first_match(listing.entries(), filename) {
        Some(entry) => StepView::Read(root, entry),
        None => if root + 1 < roots {
            StepView::Enumerate(root + 1)
        } else {
            StepView::NotFound
        },
    }
}

/// Only one position is the first match.
pub proof fn first_match_is_determined(entries: Seq<Entry>, filename: Seq<char>, index: int)
    requires
        is_first_match(entries, filename, index),
    ensures
        first_match(entries, filename) == Some(index),
{
    let chosen = choose|index: int| is_first_match(entries, filename, index);
    if chosen < index {
        assert(!entries[chosen].is_match(filename));
    } else if index < chosen {
        assert(!entries[index].is_match(filename));
    }
}

/// Where no entry is a match, there is no first match.
pub proof fn no_match_among(entries: Seq<Entry>, filename: Seq<char>)
    requires
        forall|index: int| 0 <= index < entries.len() ==> !(#[trigger] entries[index]).is_match(filename),
    ensures
        first_match(entries, filename) is None,
{
}

/// Only one root is the first that holds a match.
pub proof fn first_root_is_determined(listings: Seq<Listing>, filename: Seq<char>, root: int)
    requires
        is_first_root(listings, filename, root),
    ensures
        located(listings, filename) == Some(
            (root, first_match(listings[root].entries(), filename)->Some_0),
        ),
{
    let chosen = choose|root: int| is_first_root(listings, filename, root);
    if chosen < root {
        assert(first_match(listings[chosen].entries(), filename) is None);
    } else if root < chosen {
        assert(first_match(listings[root].entries(), filename) is None);
    }
}

/// The roots to search, highest precedence first.
pub fn search_roots() -> (r: Vec<String>)
    ensures
        r@.len() == 2,
        r@[0]@ == "/etc/quarantine"@,
        r@[1]@ == "/usr/share/quarantine"@,
{
    let mut roots: Vec<String> = Vec::new();
    roots.push("/etc/quarantine".to_owned());
    roots.push("/usr/share/quarantine".to_owned());
    roots
}

/// The name of the file that holds a profile: the profile's name followed by
/// `.profile`.
pub fn profile_filename(profile_name: &str) -> (r: String)
    ensures
        r@ == expected_filename(profile_name@),
{
    let mut filename = profile_name.to_owned();
    filename.append(".profile");
    filename
}

impl Entry {
    /// Whether the entry is the profile's file.
    pub fn matches(&self, filename: &str) -> (r: bool)
        ensures
            r == self.is_match(filename@),
    {
        let wanted = filename.to_owned();
        self.has_name(&wanted)
    }

    fn has_name(&self, wanted: &String) -> (r: bool)
        ensures
            r == self.is_match(wanted@),
    {
        match &self.name {
            Some(name) => self.is_file && *name == *wanted,
            None => false,
        }
    }
}

/// The position of the first entry that is the profile's file.
pub fn find_match(entries: &Vec<Entry>, filename: &str) -> (r: Option<usize>)
    ensures
        match r {
            Some(index) => first_match(entries@, filename@) == Some(index as int),
            None => first_match(entries@, filename@) is None,
        },
{
    let wanted = filename.to_owned();
    let mut index: usize = 0;
    while index < entries.len()
        invariant
            index <= entries.len(),
            wanted@ == filename@,
            forall|earlier: int|
                0 <= earlier < index ==> !(#[trigger] entries@[earlier]).is_match(filename@),
        decreases entries.len() - index,
    {
        if entries[index].has_name(&wanted) {
            proof {
                first_match_is_determined(entries@, filename@, index as int);
            }
            return Some(index);
        }
        index += 1;
    }
    proof {
        no_match_among(entries@, filename@);
    }
    None
}

/// The first step of a search among `roots` roots.
pub fn first_step(roots: usize) -> (r: Step)
    ensures
        r@ == step_at_start(roots as int),
{
    if roots > 0 {
        Step::Enumerate(0)
    } else {
        Step::NotFound
    }
}

/// The step after the root `root` was listed. A root that could not be
/// listed is passed over like one without a match.
pub fn next_step(roots: usize, root: usize, listing: &Listing, filename: &str) -> (r: Step)
    ensures
        r@ == step_after(roots as int, root as int, *listing, filename@),
{
    let found = match listing {
        Listing::Unavailable => {
            proof {
                no_match_among(listing.entries(), filename@);
            }
            None
        },
        Listing::Entries(entries) => find_match(entries, filename),
    };
    match found {
        Some(entry) => Step::Read(root, entry),
        None => {
            if root < usize::MAX && root + 1 < roots {
                Step::Enumerate(root + 1)
            } else {
                Step::NotFound
            }
        },
    }
}

/// How many more listings a search may ask for, the one of `step` included.
pub open spec fn listings_left(roots: int, step: StepView) -> int {
    match step {
        StepView::Enumerate(root) if 0 <= root < roots => roots - root,
        _ => 0,
    }
}

/// The step at which a search ends that stands at `step` and is handed, each
/// time it asks for one, the listing of the root it asks for.
pub open spec fn followed(listings: Seq<Listing>, filename: Seq<char>, step: StepView) -> StepView
    decreases listings_left(listings.len() as int, step),
{
    match step {
        StepView::Enumerate(root) if 0 <= root < listings.len() => followed(
            listings,
            filename,
            step_after(listings.len() as int, root, listings[root], filename),
        ),
        _ => step,
    }
}

/// The step that ends a search: to read the file that the search has
/// located, or to give up where it has located none.
pub open spec fn last_step(found: Option<(int, int)>) -> StepView {
    match found {
        Some((root, entry)) => StepView::Read(root, entry),
        None => StepView::NotFound,
    }
}

proof fn followed_from(listings: Seq<Listing>, filename: Seq<char>, root: int)
    requires
        0 <= root < listings.len(),
        forall|earlier: int|
            0 <= earlier < root ==> first_match(
                (#[trigger] listings[earlier]).entries(),
                filename,
            ) is None,
    ensures
        followed(listings, filename, StepView::Enumerate(root)) == last_step(
            located(listings, filename),
        ),
    decreases listings.len() - root,
{
    let next = step_after(listings.len() as int, root, listings[root], filename);
    assert(followed(listings, filename, StepView::Enumerate(root)) == followed(
        listings,
        filename,
        next,
    ));
    match first_match(listings[root].entries(), filename) {
        Some(entry) => {
            first_root_is_determined(listings, filename, root);
            assert(followed(listings, filename, next) == next);
        },
        None => {
            if root + 1 < listings.len() {
                followed_from(listings, filename, root + 1);
            } else {
                assert forall|other: int| !is_first_root(listings, filename, other) by {
                    if 0 <= other < listings.len() {
                        assert(first_match(listings[other].entries(), filename) is None);
                    }
                }
                assert(followed(listings, filename, next) == next);
            }
        },
    }
}

/// A search that is handed the listing of each root it asks for ends with
/// the step to read the file in the first root that holds a match, and with
/// `NotFound` where no root holds one.
pub proof fn steps_end_at_the_first_match(listings: Seq<Listing>, filename: Seq<char>)
    ensures
        followed(listings, filename, step_at_start(listings.len() as int)) == last_step(
            located(listings, filename),
        ),
{
    if listings.len() > 0 {
        followed_from(listings, filename, 0);
    }
}

/// A profile without a file of its name in any root is not found.
pub proof fn absent_profile_is_not_found(listings: Seq<Listing>, filename: Seq<char>)
    requires
        forall|root: int, index: int|
            0 <= root < listings.len() && 0 <= index < listings[root].entries().len() ==> !(
            #[trigger] listings[root].entries()[index]).is_match(filename),
    ensures
        located(listings, filename) is None,
        followed(listings, filename, step_at_start(listings.len() as int)) == StepView::NotFound,
{
    assert forall|root: int| 0 <= root < listings.len() implies first_match(
        (#[trigger] listings[root]).entries(),
        filename,
    ) is None by {
        no_match_among(listings[root].entries(), filename);
    }
    steps_end_at_the_first_match(listings, filename);
}

/// Of two roots that both hold the profile's file, the one that comes first
/// in the order of precedence gives the file, where no root before it holds
/// one.
pub proof fn first_root_wins(
    listings: Seq<Listing>,
    filename: Seq<char>,
    first: int,
    second: int,
)
    requires
        0 <= first < second < listings.len(),
        first_match(listings[first].entries(), filename) is Some,
        first_match(listings[second].entries(), filename) is Some,
        forall|earlier: int|
            0 <= earlier < first ==> first_match(
                (#[trigger] listings[earlier]).entries(),
                filename,
            ) is None,
    ensures
        located(listings, filename) == Some(
            (first, first_match(listings[first].entries(), filename)->Some_0),
        ),
{
    first_root_is_determined(listings, filename, first);
}

/// What the roots after the located one hold does not matter: two searches
/// whose listings agree up to that root locate the same file.
pub proof fn later_roots_do_not_matter(
    listings: Seq<Listing>,
    others: Seq<Listing>,
    filename: Seq<char>,
)
    requires
        located(listings, filename) matches Some((root, _)) && root < others.len() && forall|
            i: int,
        |
            0 <= i <= root ==> #[trigger] others[i] == listings[i],
    ensures
        located(others, filename) == located(listings, filename),
{
    let root = located(listings, filename)->Some_0.0;
    let chosen = choose|root: int| is_first_root(listings, filename, root);
    assert(is_first_root(listings, filename, chosen));
    assert(is_first_root(others, filename, root));
    first_root_is_determined(others, filename, root);
}

/// An entry that is no regular file is passed over, whatever its name: the
/// first match is the first entry after or before it that is one.
pub proof fn non_file_is_passed_over(
    entries: Seq<Entry>,
    filename: Seq<char>,
    index: int,
    other: int,
)
    requires
        0 <= index < entries.len(),
        !entries[index].is_file,
        0 <= other < entries.len(),
        entries[other].is_match(filename),
        forall|earlier: int|
            0 <= earlier < other && earlier != index ==> !(#[trigger] entries[earlier]).is_match(
                filename,
            ),
    ensures
        !entries[index].is_match(filename),
        first_match(entries, filename) == Some(other),
{
    first_match_is_determined(entries, filename, other);
}

/// Searches roots whose listings are all in hand, step by step as a caller
/// would that lists one root at a time: the root and the position in its
/// listing of the profile's file.
pub fn locate(listings: &Vec<Listing>, filename: &str) -> (r: Option<(usize, usize)>)
    ensures
        match r {
            Some((root, entry)) => located(listings@, filename@) == Some(
                (root as int, entry as int),
            ),
            None => located(listings@, filename@) is None,
        },
{
    proof {
        steps_end_at_the_first_match(listings@, filename@);
    }
    let mut step = first_step(listings.len());
    loop
        invariant
            followed(listings@, filename@, step@) == last_step(located(listings@, filename@)),
            step matches Step::Enumerate(root) ==> root < listings.len(),
        decreases listings_left(listings@.len() as int, step@),
    {
        match step {
            Step::Enumerate(root) => {
                step = next_step(listings.len(), root, &listings[root], filename);
            },
            Step::Read(root, entry) => {
                return Some((root, entry));
            },
            Step::NotFound => {
                return None;
            },
        }
    }
}

} // verus!
