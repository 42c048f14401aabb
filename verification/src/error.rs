//! The error surfaced by the session client and the toggle service.

use vstd::prelude::*;
use vstd::string::{StrSliceExecFns, StringExecFns};

verus! {

/// Which layer a failure came from.
#[derive(Clone, Copy, PartialEq, Eq, Structural, Debug)]
pub enum Kind {
    /// The HTTP exchange with the controller itself failed (connection,
    /// TLS, timeout, undecodable body).
    Remote,
    /// The exchange succeeded but a domain rule did not hold, such as the
    /// configured group being absent from the controller's listing.
    Business,
}

/// An error with a kind and a human-readable message.  The kind
/// distinguishes transport failures from domain failures; the adapter
/// collapses both to the same status code.
#[derive(Debug)]
pub struct Error {
    pub kind: Kind,
    pub message: String,
}

impl Error {
    /// A business error carrying the given message.
    pub fn from_str(s: &str) -> (r: Error)
        ensures
            r.kind == Kind::Business,
            r.message@ == s@,
    {
        Error { kind: Kind::Business, message: s.to_owned() }
    }

    /// A transport error carrying the driver's description of the remote
    /// failure.
    pub fn remote(message: String) -> (r: Error)
        ensures
            r.kind == Kind::Remote,
            r.message@ == message@,
    {
        Error { kind: Kind::Remote, message }
    }

    /// What `describe` returns: the kind's name, a space, and the
    /// message wrapped in double quotes with debug-style escapes.
    pub open spec fn spec_describe(&self) -> Seq<char> {
        (match self.kind {
            Kind::Remote => "Remote "@,
            Kind::Business => "Business "@,
        }) + seq!['"'] + spec_escaped(self.message@) + seq!['"']
    }

    /// The plain-text form the adapter puts in an error response body:
    /// the kind's name followed by the quoted message.
    pub fn describe(&self) -> (r: String)
        ensures
            r@ == self.spec_describe(),
    {
        let mut s = match self.kind {
            Kind::Remote => "Remote ",
            Kind::Business => "Business ",
        }.to_owned();
        s.append("\"");
        proof {
            reveal_strlit("\"");
            assert("\""@ =~= seq!['"']);
        }
        let ghost prefix: Seq<char> = s@;
        let msg = self.message.as_str();
        let n = msg.unicode_len();
        let mut i: usize = 0;
        while i < n
            invariant
                n == msg@.len(),
                i <= n,
                msg@ == self.message@,
                s@ == prefix + spec_escaped(msg@.take(i as int)),
            decreases n - i,
        {
            let c = msg.get_char(i);
            if c == '"' {
                s.append("\\\"");
                proof {
                    reveal_strlit("\\\"");
                    assert("\\\""@ =~= seq!['\\', '"']);
                }
            } else if c == '\\' {
                s.append("\\\\");
                proof {
                    reveal_strlit("\\\\");
                    assert("\\\\"@ =~= seq!['\\', '\\']);
                }
            } else if c == '\n' {
                s.append("\\n");
                proof {
                    reveal_strlit("\\n");
                    assert("\\n"@ =~= seq!['\\', 'n']);
                }
            } else if c == '\r' {
                s.append("\\r");
                proof {
                    reveal_strlit("\\r");
                    assert("\\r"@ =~= seq!['\\', 'r']);
                }
            } else if c == '\t' {
                s.append("\\t");
                proof {
                    reveal_strlit("\\t");
                    assert("\\t"@ =~= seq!['\\', 't']);
                }
            } else {
                s.append(msg.substring_char(i, i + 1));
                proof {
                    assert(msg@.subrange(i as int, i as int + 1) =~= seq![msg@[i as int]]);
                }
            }
            proof {
                lemma_escaped_snoc(msg@, i as int);
                assert(s@ =~= prefix + spec_escaped(msg@.take(i as int + 1)));
            }
            i = i + 1;
        }
        proof {
            assert(msg@.take(n as int) =~= msg@);
        }
        s.append("\"");
        proof {
            reveal_strlit("\"");
            assert("\""@ =~= seq!['"']);
            assert(s@ =~= self.spec_describe());
        }
        s
    }
}

/// How one character of a message is rendered inside the quotes:
/// backslash escapes for the double quote, the backslash and the common
/// control characters; every other character stands as itself.
pub open spec fn spec_escaped_char(c: char) -> Seq<char> {
    if c == '"' {
        seq!['\\', '"']
    } else if c == '\\' {
        seq!['\\', '\\']
    } else if c == '\n' {
        seq!['\\', 'n']
    } else if c == '\r' {
        seq!['\\', 'r']
    } else if c == '\t' {
        seq!['\\', 't']
    } else {
        seq![c]
    }
}

/// A message rendered inside the quotes, character by character.
pub open spec fn spec_escaped(s: Seq<char>) -> Seq<char>
    decreases s.len(),
{
    if s.len() == 0 {
        Seq::empty()
    } else {
        spec_escaped_char(s[0]) + spec_escaped(s.skip(1))
    }
}

/// Extending the rendered prefix by one character appends exactly that
/// character's rendering.
proof fn lemma_escaped_snoc(s: Seq<char>, i: int)
    requires
        0 <= i < s.len(),
    ensures
        spec_escaped(s.take(i + 1)) == spec_escaped(s.take(i)) + spec_escaped_char(s[i]),
    decreases i,
{
    if i == 0 {
        assert(s.take(0) =~= Seq::<char>::empty());
        assert(s.take(1)[0] == s[0]);
        assert(s.take(1).skip(1) =~= Seq::<char>::empty());
        assert(spec_escaped(s.take(1)) =~= spec_escaped(s.take(0)) + spec_escaped_char(s[0]));
    } else {
        lemma_escaped_snoc(s.skip(1), i - 1);
        assert(s.take(i + 1)[0] == s[0]);
        assert(s.take(i + 1).skip(1) =~= s.skip(1).take(i));
        assert(s.take(i).skip(1) =~= s.skip(1).take(i - 1));
        assert(s.skip(1)[i - 1] == s[i]);
        assert(spec_escaped(s.take(i + 1)) =~= spec_escaped(s.take(i)) + spec_escaped_char(s[i]));
    }
}

impl From<String> for Error {
    fn from(s: String) -> (r: Self) {
        Self { kind: Kind::Business, message: s }
    }
}

impl vstd::std_specs::convert::FromSpecImpl<String> for Error {
    open spec fn obeys_from_spec() -> bool {
        true
    }

    open spec fn from_spec(s: String) -> Error {
        Error { kind: Kind::Business, message: s }
    }
}

} // verus!
