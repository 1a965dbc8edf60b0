//! Errors reported by the engine, and their classification.
use vstd::prelude::*;

verus! {

/// RocksDB error kind.
#[derive(Debug, Clone, Copy, PartialEq, Eq, Structural)]
pub enum ErrorKind {
    NotFound,
    Corruption,
    NotSupported,
    InvalidArgument,
    IOError,
    MergeInProgress,
    Incomplete,
    ShutdownInProgress,
    TimedOut,
    Aborted,
    Busy,
    Expired,
    TryAgain,
    CompactionTooLarge,
    ColumnFamilyDropped,
    Unknown,
}

/// A simple wrapper round a string, used for errors reported by the engine.
#[derive(Debug, Clone, PartialEq, Eq)]
pub struct Error {
    message: String,
}

/// The text of `s` before its first `':'`, or all of `s` when it holds none.
pub open spec fn prefix_before_colon(s: Seq<char>) -> Seq<char>
    decreases s.len(),
{
    if s.len() == 0 {
        s
    } else if s[0] == ':' {
        Seq::empty()
    } else {
        seq![s[0]] + prefix_before_colon(s.drop_first())
    }
}

/// The kind that a message prefix names.
pub open spec fn kind_of_prefix(p: Seq<char>) -> ErrorKind {
    if p == "NotFound"@ {
        ErrorKind::NotFound
    } else if p == "Corruption"@ {
        ErrorKind::Corruption
    } else if p == "Not implemented"@ {
        ErrorKind::NotSupported
    } else if p == "Invalid argument"@ {
        ErrorKind::InvalidArgument
    } else if p == "IO error"@ {
        ErrorKind::IOError
    } else if p == "Merge in progress"@ {
        ErrorKind::MergeInProgress
    } else if p == "Result incomplete"@ {
        ErrorKind::Incomplete
    } else if p == "Shutdown in progress"@ {
        ErrorKind::ShutdownInProgress
    } else if p == "Operation timed out"@ {
        ErrorKind::TimedOut
    } else if p == "Operation aborted"@ {
        ErrorKind::Aborted
    } else if p == "Resource busy"@ {
        ErrorKind::Busy
    } else if p == "Operation expired"@ {
        ErrorKind::Expired
    } else if p == "Operation failed. Try again."@ {
        ErrorKind::TryAgain
    } else if p == "Compaction too large"@ {
        ErrorKind::CompactionTooLarge
    } else if p == "Column family dropped"@ {
        ErrorKind::ColumnFamilyDropped
    } else {
        ErrorKind::Unknown
    }
}

/// The kind of an error whose message is `m`.
pub open spec fn kind_of_message(m: Seq<char>) -> ErrorKind {
    kind_of_prefix(prefix_before_colon(m))
}

/// Where the first `':'` of `s` stands, or its length when it holds none.
pub open spec fn first_colon(s: Seq<char>) -> int
    decreases s.len(),
{
    if s.len() == 0 {
        0
    } else if s[0] == ':' {
        0
    } else {
        1 + first_colon(s.drop_first())
    }
}

proof fn lemma_first_colon(s: Seq<char>)
    ensures
        0 <= first_colon(s) <= s.len(),
        prefix_before_colon(s) == s.subrange(0, first_colon(s)),
        forall|i: int| 0 <= i < first_colon(s) ==> s[i] != ':',
        first_colon(s) < s.len() ==> s[first_colon(s)] == ':',
    decreases s.len(),
{
    if s.len() > 0 && s[0] != ':' {
        lemma_first_colon(s.drop_first());
        assert forall|i: int| 0 <= i < first_colon(s) implies s[i] != ':' by {
            if i > 0 {
                assert(s[i] == s.drop_first()[i - 1]);
            }
        }
        assert(prefix_before_colon(s) =~= s.subrange(0, first_colon(s)));
    } else if s.len() > 0 {
        assert(prefix_before_colon(s) =~= s.subrange(0, 0));
    } else {
        assert(prefix_before_colon(s) =~= s.subrange(0, 0));
    }
}

proof fn lemma_first_colon_at(s: Seq<char>, k: int)
    requires
        0 <= k <= s.len(),
        forall|i: int| 0 <= i < k ==> s[i] != ':',
        k < s.len() ==> s[k] == ':',
    ensures
        first_colon(s) == k,
{
    lemma_first_colon(s);
    if first_colon(s) < k {
        assert(s[first_colon(s)] == ':');
    } else if first_colon(s) > k {
        assert(s[k] != ':');
    }
}

/// The kind of an error depends only on the text of its message before the
/// first `':'`: a message made of a colon-free prefix, a colon and any rest
/// has the kind that the prefix names.
pub proof fn law_kind_depends_on_prefix(prefix: Seq<char>, rest: Seq<char>)
    requires
        !prefix.contains(':'),
    ensures
        kind_of_message(prefix + seq![':'] + rest) == kind_of_prefix(prefix),
{
    let m = prefix + seq![':'] + rest;
    assert forall|i: int| 0 <= i < prefix.len() implies m[i] != ':' by {
        assert(m[i] == prefix[i]);
    }
    assert(m[prefix.len() as int] == ':');
    lemma_first_colon_at(m, prefix.len() as int);
    lemma_first_colon(m);
    assert(m.subrange(0, prefix.len() as int) =~= prefix);
}

/// A message without a colon is classified as a whole.
pub proof fn law_kind_of_colon_free_message(m: Seq<char>)
    requires
        !m.contains(':'),
    ensures
        kind_of_message(m) == kind_of_prefix(m),
{
    assert forall|i: int| 0 <= i < m.len() implies m[i] != ':' by {
        if m[i] == ':' {
            assert(m.contains(':'));
        }
    }
    lemma_first_colon_at(m, m.len() as int);
    lemma_first_colon(m);
    assert(m.subrange(0, m.len() as int) =~= m);
}

impl Error {
    /// The message text.
    pub closed spec fn view(&self) -> Seq<char> {
        self.message@
    }

    /// The error that carries `message`.
    pub fn new(message: String) -> (e: Error)
        ensures
            e.view() == message@,
    {
        Error { message }
    }

    /// Gives the message back.
    pub fn into_string(self) -> (s: String)
        ensures
            s@ == self.view(),
    {
        self.message
    }

    /// The message, as text.
    pub fn to_string(&self) -> (s: String)
        ensures
            s@ == self.view(),
    {
        self.message.clone()
    }

    /// The message, borrowed.
    pub fn as_str(&self) -> (s: &str)
        ensures
            s@ == self.view(),
    {
        self.message.as_str()
    }

    /// Parse corresponding [`ErrorKind`] from error message.
    pub fn kind(&self) -> (k: ErrorKind)
        ensures
            k == kind_of_message(self.view()),
    {
        let m = self.message.as_str();
        let n = m.unicode_len();
        let mut i: usize = 0;
        while i < n && m.get_char(i) != ':'
            invariant
                n == m@.len(),
                i <= n,
                forall|j: int| 0 <= j < i ==> m@[j] != ':',
            decreases n - i,
        {
            i = i + 1;
        }
        proof {
            lemma_first_colon_at(m@, i as int);
            lemma_first_colon(m@);
        }
        let p = String::from_str(m.substring_char(0, i));
        assert(p@ == prefix_before_colon(self.view()));
        if p == String::from_str("NotFound") {
            ErrorKind::NotFound
        } else if p == String::from_str("Corruption") {
            ErrorKind::Corruption
        } else if p == String::from_str("Not implemented") {
            ErrorKind::NotSupported
        } else if p == String::from_str("Invalid argument") {
            ErrorKind::InvalidArgument
        } else if p == String::from_str("IO error") {
            ErrorKind::IOError
        } else if p == String::from_str("Merge in progress") {
            ErrorKind::MergeInProgress
        } else if p == String::from_str("Result incomplete") {
            ErrorKind::Incomplete
        } else if p == String::from_str("Shutdown in progress") {
            ErrorKind::ShutdownInProgress
        } else if p == String::from_str("Operation timed out") {
            ErrorKind::TimedOut
        } else if p == String::from_str("Operation aborted") {
            ErrorKind::Aborted
        } else if p == String::from_str("Resource busy") {
            ErrorKind::Busy
        } else if p == String::from_str("Operation expired") {
            ErrorKind::Expired
        } else if p == String::from_str("Operation failed. Try again.") {
            ErrorKind::TryAgain
        } else if p == String::from_str("Compaction too large") {
            ErrorKind::CompactionTooLarge
        } else if p == String::from_str("Column family dropped") {
            ErrorKind::ColumnFamilyDropped
        } else {
            ErrorKind::Unknown
        }
    }
}

} // verus!
