//! Repository references: an owner and a name, read from the short form
//! `owner/name` or from a forge URL.

use crate::error::{ErrorKind, GitHubFetchError};
use crate::text::{chars_of, push_char, push_text, string_of_range};
use vstd::prelude::*;

verus! {

/// Whether no character of `s` is a slash.
pub open spec fn no_slash(s: Seq<char>) -> bool {
    forall|i: int| 0 <= i < s.len() ==> #[trigger] s[i] != '/'
}

/// The short form of a reference: owner, slash, name.
pub open spec fn join_full_name(owner: Seq<char>, name: Seq<char>) -> Seq<char> {
    owner + seq!['/'] + name
}

/// Whether `s` is the short form of the reference with this owner and name:
/// two non-empty segments without a slash, joined by one.
pub open spec fn is_full_name_of(s: Seq<char>, owner: Seq<char>, name: Seq<char>) -> bool {
    &&& s == join_full_name(owner, name)
    &&& owner.len() > 0
    &&& name.len() > 0
    &&& no_slash(owner)
    &&& no_slash(name)
}

/// Whether `s` is the short form of some reference.
pub open spec fn valid_full_name(s: Seq<char>) -> bool {
    exists|owner: Seq<char>, name: Seq<char>| is_full_name_of(s, owner, name)
}

/// `s` without the slashes at its end.
pub open spec fn trim_trailing_slashes(s: Seq<char>) -> Seq<char>
    decreases s.len(),
{
    if s.len() > 0 && s.last() == '/' {
        trim_trailing_slashes(s.drop_last())
    } else {
        s
    }
}

/// Whether `owner` and `name` are the last two slash-delimited segments of `t`:
/// `t` ends in owner, slash, name, neither holds a slash, and the owner starts
/// at the beginning of `t` or right after a slash.
pub open spec fn is_url_tail(t: Seq<char>, owner: Seq<char>, name: Seq<char>) -> bool {
    &&& no_slash(owner)
    &&& no_slash(name)
    &&& exists|head: Seq<char>|
        #![trigger head + join_full_name(owner, name)]
        t == head + join_full_name(owner, name) && (head.len() == 0 || head.last() == '/')
}

/// Whether `s` can stand between two slashes: it is not empty and holds none.
pub open spec fn is_segment(s: Seq<char>) -> bool {
    s.len() > 0 && no_slash(s)
}

/// Whether some character of `s` is a slash.
pub open spec fn has_slash(s: Seq<char>) -> bool {
    exists|i: int| 0 <= i < s.len() && #[trigger] s[i] == '/'
}

/// An owner/name pair that identifies a repository on the forge.
#[derive(Debug, Clone)]
pub struct Repository {
    pub owner: String,
    pub name: String,
    pub full_name: String,
}

/// View of a [`Repository`].
pub ghost struct RepositoryView {
    pub owner: Seq<char>,
    pub name: Seq<char>,
    pub full_name: Seq<char>,
}

impl View for Repository {
    type V = RepositoryView;

    open spec fn view(&self) -> RepositoryView {
        RepositoryView { owner: self.owner@, name: self.name@, full_name: self.full_name@ }
    }
}

/// The position of the first slash in `chars` at or after `from`, or the
/// length of `chars` where there is none.
pub(crate) fn find_slash(chars: &Vec<char>, from: usize) -> (r: usize)
    requires
        from <= chars.len(),
    ensures
        from <= r <= chars.len(),
        forall|j: int| from <= j < r ==> chars@[j] != '/',
        r < chars.len() ==> chars@[r as int] == '/',
{
    let mut i: usize = from;
    while i < chars.len()
        invariant
            from <= i <= chars.len(),
            forall|j: int| from <= j < i ==> chars@[j] != '/',
        decreases chars.len() - i,
    {
        if chars[i] == '/' {
            return i;
        }
        i += 1;
    }
    i
}

/// The position just after the last slash of `chars` before `end`, or zero
/// where there is none.
fn segment_start(chars: &Vec<char>, end: usize) -> (r: usize)
    requires
        end <= chars.len(),
    ensures
        r <= end,
        forall|j: int| r <= j < end ==> chars@[j] != '/',
        r > 0 ==> chars@[r - 1] == '/',
{
    let mut i: usize = end;
    while i > 0
        invariant
            i <= end <= chars.len(),
            forall|j: int| i <= j < end ==> chars@[j] != '/',
        decreases i,
    {
        if chars[i - 1] == '/' {
            return i;
        }
        i -= 1;
    }
    i
}

impl Repository {
    /// Whether the full name is the owner, a slash, and the name.
    pub open spec fn well_formed(&self) -> bool {
        self.full_name@ == join_full_name(self.owner@, self.name@)
    }

    /// Makes a copy of this reference.
    pub fn copy_of(&self) -> (r: Repository)
        ensures
            r@ == self@,
    {
        Repository {
            owner: self.owner.clone(),
            name: self.name.clone(),
            full_name: self.full_name.clone(),
        }
    }

    /// Makes a reference from its parts; any owner and name are taken.
    pub fn new(owner: &str, name: &str) -> (r: Repository)
        ensures
            r.owner@ == owner@,
            r.name@ == name@,
            r.full_name@ == join_full_name(owner@, name@),
            r.well_formed(),
    {
        let mut full_name = String::new();
        push_text(&mut full_name, owner);
        push_char(&mut full_name, '/');
        push_text(&mut full_name, name);
        assert(full_name@ =~= join_full_name(owner@, name@));
        Repository { owner: owner.to_owned(), name: name.to_owned(), full_name }
    }

    /// Reads a reference from its short form `owner/name`. The text is taken
    /// exactly where it holds one slash with a non-empty segment on each side;
    /// any other text is refused as an invalid repository.
    pub fn from_full_name(full_name: &str) -> (r: Result<Repository, GitHubFetchError>)
        ensures
            r is Ok <==> valid_full_name(full_name@),
            r is Ok ==> {
                &&& is_full_name_of(full_name@, r->Ok_0.owner@, r->Ok_0.name@)
                &&& r->Ok_0.full_name@ == full_name@
                &&& r->Ok_0.well_formed()
            },
            r is Err ==> {
                &&& r->Err_0.spec_kind() == ErrorKind::InvalidRepository
                &&& r->Err_0.spec_message()
                    == "Invalid repository full name format. Expected 'owner/name', got: "@
                    + full_name@
            },
    {
        let chars = chars_of(full_name);
        let slash = find_slash(&chars, 0);
        let valid = if slash == 0 || slash >= chars.len() || slash + 1 == chars.len() {
            false
        } else {
            find_slash(&chars, slash + 1) == chars.len()
        };
        if valid {
            let owner = string_of_range(&chars, 0, slash);
            let name = string_of_range(&chars, slash + 1, chars.len());
            let repo = Repository { owner, name, full_name: full_name.to_owned() };
            assert(full_name@ =~= join_full_name(repo.owner@, repo.name@));
            assert(is_full_name_of(full_name@, repo.owner@, repo.name@));
            Ok(repo)
        } else {
            proof {
                if valid_full_name(full_name@) {
                    let (o, n) = choose|o: Seq<char>, n: Seq<char>|
                        is_full_name_of(full_name@, o, n);
                    lemma_full_name_slashes(full_name@, o, n);
                    assert(slash == o.len());
                }
            }
            let mut message = "Invalid repository full name format. Expected 'owner/name', got: ".to_owned();
            push_text(&mut message, full_name);
            Err(GitHubFetchError::InvalidRepository(message))
        }
    }

    /// Reads a reference from a forge URL: the slashes at the end are dropped,
    /// and the last two slash-delimited segments of what is left are the owner
    /// and the name. A text with no slash left is refused as an invalid
    /// repository.
    pub fn from_url(url: &str) -> (r: Result<Repository, GitHubFetchError>)
        ensures
            r is Ok <==> has_slash(trim_trailing_slashes(url@)),
            r is Ok ==> {
                &&& is_url_tail(trim_trailing_slashes(url@), r->Ok_0.owner@, r->Ok_0.name@)
                &&& r->Ok_0.name@.len() > 0
                &&& r->Ok_0.well_formed()
            },
            r is Err ==> {
                &&& r->Err_0.spec_kind() == ErrorKind::InvalidRepository
                &&& r->Err_0.spec_message() == "Invalid repository URL: "@ + url@
            },
    {
        let chars = chars_of(url);
        let mut end: usize = chars.len();
        assert(chars@.take(end as int) =~= chars@);
        while end > 0 && chars[end - 1] == '/'
            invariant
                end <= chars.len(),
                trim_trailing_slashes(chars@) == trim_trailing_slashes(chars@.take(end as int)),
            decreases end,
        {
            assert(chars@.take(end as int).drop_last() =~= chars@.take(end - 1));
            end -= 1;
        }
        let ghost trimmed = chars@.take(end as int);
        assert(trim_trailing_slashes(chars@) == trimmed);
        let name_start = segment_start(&chars, end);
        if name_start == 0 {
            assert(!has_slash(trimmed));
            let mut message = "Invalid repository URL: ".to_owned();
            push_text(&mut message, url);
            return Err(GitHubFetchError::InvalidRepository(message));
        }
        let owner_start = segment_start(&chars, name_start - 1);
        let owner = string_of_range(&chars, owner_start, name_start - 1);
        let name = string_of_range(&chars, name_start, end);
        proof {
            assert(trimmed[name_start - 1] == '/');
            let head = trimmed.take(owner_start as int);
            assert(trimmed =~= head + join_full_name(owner@, name@));
            assert(owner_start > 0 ==> head.last() == '/');
        }
        let repo = Repository::new(owner.as_str(), name.as_str());
        Ok(repo)
    }
}

/// In a short form, the joining slash is the first slash, and it is the only one.
pub proof fn lemma_full_name_slashes(s: Seq<char>, owner: Seq<char>, name: Seq<char>)
    requires
        is_full_name_of(s, owner, name),
    ensures
        s.len() == owner.len() + 1 + name.len(),
        s[owner.len() as int] == '/',
        forall|j: int| 0 <= j < s.len() && j != owner.len() ==> s[j] != '/',
{
    assert forall|j: int| 0 <= j < s.len() && j != owner.len() implies s[j] != '/' by {
        if j < owner.len() {
            assert(s[j] == owner[j]);
        } else {
            assert(s[j] == name[j - owner.len() - 1]);
        }
    }
}

/// Reading a short form gives one answer: a text is the short form of at most
/// one owner and name.
pub proof fn lemma_full_name_unique(
    s: Seq<char>,
    owner1: Seq<char>,
    name1: Seq<char>,
    owner2: Seq<char>,
    name2: Seq<char>,
)
    requires
        is_full_name_of(s, owner1, name1),
        is_full_name_of(s, owner2, name2),
    ensures
        owner1 == owner2,
        name1 == name2,
{
    lemma_full_name_slashes(s, owner1, name1);
    lemma_full_name_slashes(s, owner2, name2);
    assert(owner1.len() == owner2.len());
    assert(owner1 =~= s.take(owner1.len() as int));
    assert(owner2 =~= s.take(owner2.len() as int));
    assert(name1 =~= s.skip(owner1.len() as int + 1));
    assert(name2 =~= s.skip(owner2.len() as int + 1));
}

/// Rendering then reading is the identity: for a non-empty owner and name
/// without a slash, the rendered short form is valid, and whatever owner and
/// name it is read as are the ones it was rendered from, so that rendering
/// them again gives the same text.
pub proof fn lemma_full_name_round_trip(
    owner: Seq<char>,
    name: Seq<char>,
    read_owner: Seq<char>,
    read_name: Seq<char>,
)
    requires
        owner.len() > 0,
        name.len() > 0,
        no_slash(owner),
        no_slash(name),
        is_full_name_of(join_full_name(owner, name), read_owner, read_name),
    ensures
        valid_full_name(join_full_name(owner, name)),
        read_owner == owner,
        read_name == name,
        join_full_name(read_owner, read_name) == join_full_name(owner, name),
{
    let s = join_full_name(owner, name);
    assert(is_full_name_of(s, owner, name));
    lemma_full_name_unique(s, owner, name, read_owner, read_name);
}

/// A malformed short form is not valid: a text without a slash, a text with
/// two or more slashes, and a text that begins or ends with a slash, so that
/// a segment is empty, are the short form of no reference.
pub proof fn lemma_malformed_full_name_invalid(s: Seq<char>)
    requires
        no_slash(s) || (exists|i: int, j: int|
            0 <= i < j < s.len() && #[trigger] s[i] == '/' && #[trigger] s[j] == '/') || (s.len()
            > 0 && (s[0] == '/' || s.last() == '/')),
    ensures
        !valid_full_name(s),
{
    if valid_full_name(s) {
        let (owner, name) = choose|owner: Seq<char>, name: Seq<char>|
            is_full_name_of(s, owner, name);
        lemma_full_name_slashes(s, owner, name);
        if no_slash(s) {
            assert(s[owner.len() as int] == '/');
        } else if s.len() > 0 && (s[0] == '/' || s.last() == '/') {
            assert(s[0] == owner[0]);
            assert(s.last() == name.last());
        } else {
            let (i, j) = choose|i: int, j: int|
                0 <= i < j < s.len() && #[trigger] s[i] == '/' && #[trigger] s[j] == '/';
            assert(i == owner.len());
            assert(j == owner.len());
        }
    }
}

} // verus!
