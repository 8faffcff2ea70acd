//! Connection strings and the hand-over of an open connection.
use arrow_odbc::odbc_api::escape_attribute_value;
use vstd::prelude::*;
use vstd::string::*;

verus! {

/// Whether a value has to be wrapped to stand in a connection string: `;` would end the
/// attribute, and some drivers read `+` in their own way.
pub open spec fn needs_escape(value: Seq<char>) -> bool {
    value.contains(';') || value.contains('+')
}

/// The value with every closing brace written twice.
pub open spec fn doubled_braces(value: Seq<char>) -> Seq<char>
    decreases value.len(),
{
    if value.len() == 0 {
        Seq::empty()
    } else if value.last() == '}' {
        doubled_braces(value.drop_last()) + seq!['}', '}']
    } else {
        doubled_braces(value.drop_last()) + seq![value.last()]
    }
}

/// The value as it stands in a connection string: as it is where that is safe, else in
/// braces with its own closing braces doubled.
pub open spec fn escaped(value: Seq<char>) -> Seq<char> {
    if needs_escape(value) {
        seq!['{'] + doubled_braces(value) + seq!['}']
    } else {
        value
    }
}

/// The connection string with one more attribute at its end, if there is a value for it.
pub open spec fn with_attribute(connection_string: Seq<char>, name: Seq<char>, value: Option<Seq<char>>) -> Seq<
    char,
> {
    match value {
        Some(value) => connection_string + name + seq!['='] + escaped(value) + seq![';'],
        None => connection_string,
    }
}

/// `odbc_api::escape_attribute_value`. A value without `;` and `+` comes back as it is;
/// any other is put in braces, with each `}` of its own replaced by `}}`.
#[verifier::external_body]
fn escape_attribute(value: &str) -> (out: String)
    ensures
        out@ == escaped(value@),
{
    escape_attribute_value(value).into_owned()
}

/// Appends an attribute such as the user or the password to a connection string. Without a
/// value nothing is appended.
pub fn append_attribute(attribute_name: &str, connection_string: &mut String, value: Option<&str>)
    ensures
        final(connection_string)@ == with_attribute(
            old(connection_string)@,
            attribute_name@,
            match value {
                Some(text) => Some(text@),
                None => None,
            },
        ),
{
    match value {
        None => {},
        Some(text) => {
            let escaped_value = escape_attribute(text);
            proof {
                reveal_strlit("=");
                reveal_strlit(";");
                assert("="@ =~= seq!['=']);
                assert(";"@ =~= seq![';']);
            }
            connection_string.append(attribute_name);
            connection_string.append("=");
            connection_string.append(escaped_value.as_str());
            connection_string.append(";");
        },
    }
}

/// The name of the attribute that carries the user.
pub open spec fn user_attribute() -> Seq<char> {
    "UID"@
}

/// The name of the attribute that carries the password.
pub open spec fn password_attribute() -> Seq<char> {
    "PWD"@
}

/// The connection string with the credentials that were given: first the user, then the
/// password.
pub fn connection_string_with_credentials(connection_string: &str, user: Option<&str>, password: Option<&str>) -> (out:
    String)
    ensures
        out@ == with_attribute(
            with_attribute(
                connection_string@,
                user_attribute(),
                match user {
                    Some(text) => Some(text@),
                    None => None,
                },
            ),
            password_attribute(),
            match password {
                Some(text) => Some(text@),
                None => None,
            },
        ),
{
    let mut out = String::from_str(connection_string);
    append_attribute("UID", &mut out, user);
    append_attribute("PWD", &mut out, password);
    out
}

/// Carries an open connection over the boundary, until a reader or a writer takes it.
pub struct ArrowOdbcConnection<C>(pub Option<C>);

impl<C> ArrowOdbcConnection<C> {
    /// Whether the connection is still there.
    pub open spec fn holds(&self) -> bool {
        self.0 is Some
    }

    /// Wraps an open connection.
    pub fn new(connection: C) -> (out: Self)
        ensures
            out.0 == Some(connection),
    {
        ArrowOdbcConnection(Some(connection))
    }

    /// Whether the connection is still there.
    pub fn is_held(&self) -> (held: bool)
        ensures
            held == self.holds(),
    {
        self.0.is_some()
    }

    /// Takes the connection out of its wrapper, which is empty afterwards.
    pub fn take(&mut self) -> (connection: C)
        requires
            old(self).holds(),
        ensures
            old(self).0 == Some(connection),
            !final(self).holds(),
    {
        self.0.take().unwrap()
    }
}

} // verus!
