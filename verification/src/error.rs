//! The error that crosses the boundary: a message that ends at the first terminator byte.
use vstd::prelude::*;
use vstd::string::*;

verus! {

/// Index of the first NUL character in `text`, or the length of `text` if it holds none.
pub open spec fn first_nul(text: Seq<char>) -> nat
    decreases text.len(),
{
    if text.len() == 0 || text[0] == '\0' {
        0
    } else {
        1 + first_nul(text.drop_first())
    }
}

/// The part of `text` that a terminated string can carry: everything before the first NUL.
pub open spec fn truncated(text: Seq<char>) -> Seq<char> {
    text.take(first_nul(text) as int)
}

/// `first_nul` is a position inside the text, nothing before it is NUL, and it stands on a
/// NUL unless it is the end of the text.
pub proof fn lemma_first_nul(text: Seq<char>)
    ensures
        first_nul(text) <= text.len(),
        forall|i: int| 0 <= i < first_nul(text) ==> text[i] != '\0',
        first_nul(text) < text.len() ==> text[first_nul(text) as int] == '\0',
    decreases text.len(),
{
    if text.len() == 0 || text[0] == '\0' {
    } else {
        let rest = text.drop_first();
        lemma_first_nul(rest);
        assert forall|i: int| 0 <= i < first_nul(text) implies text[i] != '\0' by {
            if i > 0 {
                assert(text[i] == rest[i - 1]);
            }
        }
        if first_nul(text) < text.len() {
            assert(text[first_nul(text) as int] == rest[first_nul(rest) as int]);
        }
    }
}

/// A position that holds the first NUL, or the end of a text without one, is `first_nul`.
pub proof fn lemma_first_nul_is(text: Seq<char>, at: nat)
    requires
        at <= text.len(),
        forall|i: int| 0 <= i < at ==> text[i] != '\0',
        at < text.len() ==> text[at as int] == '\0',
    ensures
        first_nul(text) == at,
{
    lemma_first_nul(text);
    let found = first_nul(text);
    if found < at {
        assert(text[found as int] == '\0');
    } else if at < found {
        assert(text[at as int] == '\0');
    }
}

/// Error handed to the caller of the boundary. Its message never holds a NUL character, so
/// that it can be read as a terminated string.
pub struct ArrowOdbcError {
    message: String,
}

impl ArrowOdbcError {
    /// The message as the caller reads it.
    pub closed spec fn text(&self) -> Seq<char> {
        self.message@
    }

    /// No NUL character stands in the message.
    pub open spec fn wf(&self) -> bool {
        forall|i: int| 0 <= i < self.text().len() ==> self.text()[i] != '\0'
    }

    /// Wraps `source`, cut off before its first NUL character.
    pub fn new(source: &str) -> (error: ArrowOdbcError)
        ensures
            error.text() == truncated(source@),
            error.wf(),
    {
        let len = source.unicode_len();
        let mut end: usize = 0;
        while end < len && source.get_char(end) != '\0'
            invariant
                end <= len,
                len == source@.len(),
                forall|i: int| 0 <= i < end ==> source@[i] != '\0',
            decreases len - end,
        {
            end += 1;
        }
        proof {
            lemma_first_nul_is(source@, end as nat);
        }
        let message = String::from_str(source.substring_char(0, end));
        ArrowOdbcError { message }
    }

    /// The message, free of NUL characters.
    pub fn message(&self) -> (text: &str)
        ensures
            text@ == self.text(),
    {
        self.message.as_str()
    }

    /// The message as an owned string.
    pub fn to_string(&self) -> (text: String)
        ensures
            text@ == self.text(),
    {
        self.message.clone()
    }
}

/// Reports the outcome of an operation that yields a value, by the convention of the
/// boundary: on success the value is written through the output parameter and no error
/// comes back; on failure the error comes back and the output parameter is left as it was.
pub fn deliver<T>(outcome: Result<T, ArrowOdbcError>, out: &mut T) -> (error: Option<ArrowOdbcError>)
    ensures
        outcome matches Ok(value) ==> error is None && *final(out) == value,
        outcome matches Err(failure) ==> error == Some(failure) && *final(out) == *old(out),
{
    match outcome {
        Ok(value) => {
            *out = value;
            None
        },
        Err(failure) => Some(failure),
    }
}

/// Reports the outcome of an operation that yields nothing.
pub fn report(outcome: Result<(), ArrowOdbcError>) -> (error: Option<ArrowOdbcError>)
    ensures
        outcome is Ok ==> error is None,
        outcome matches Err(failure) ==> error == Some(failure),
{
    match outcome {
        Ok(_) => None,
        Err(failure) => Some(failure),
    }
}

} // verus!
