//! Uninstall metadata: the record written at the end of a successful
//! installation and read back to drive a symmetric removal.
//!
//! The record is framed as a flat JSON object. Writing it is the library's
//! own, fully specified emitter; reading one back goes through `serde_json`,
//! whose parse result is opaque, after which the field decisions are made by
//! fully specified code.

use vstd::prelude::*;

use crate::checksum::hex_digit;
use crate::error::InstallerError;
use crate::error::InstallerResult;
use crate::text::push_char;
use crate::text::starts_with;
use crate::text::str_starts_with;

verus! {

/// How one character appears inside a JSON string literal: quotes and
/// backslashes are escaped, common control characters use their short
/// escapes, other control characters use a `\u00..` escape.
pub open spec fn json_escape_char(c: char) -> Seq<char> {
    if c == '"' {
        seq!['\\', '"']
    } else if c == '\\' {
        seq!['\\', '\\']
    } else if c == '\n' {
        seq!['\\', 'n']
    } else if c == '\r' {
        seq!['\\', 'r']
    } else if c == '\t' {
        seq!['\\', 't']
    } else if (c as u32) < 32 {
        seq!['\\', 'u', '0', '0', hex_digit((c as u32 / 16) as u8), hex_digit((c as u32 % 16) as u8)]
    } else {
        seq![c]
    }
}

/// The body of a JSON string literal holding `s`.
pub open spec fn json_escaped(s: Seq<char>) -> Seq<char>
    decreases s.len(),
{
    if s.len() == 0 {
        Seq::empty()
    } else {
        json_escaped(s.drop_last()) + json_escape_char(s.last())
    }
}

/// A JSON string literal holding `s`.
pub open spec fn json_quoted(s: Seq<char>) -> Seq<char> {
    seq!['"'] + json_escaped(s) + seq!['"']
}

/// One `"key":"value"` member.
pub open spec fn json_member(key: Seq<char>, value: Seq<char>) -> Seq<char> {
    json_quoted(key) + seq![':'] + json_quoted(value)
}

/// The members of a flat JSON object over string pairs, comma-separated.
pub open spec fn json_members(pairs: Seq<(String, String)>) -> Seq<char>
    decreases pairs.len(),
{
    if pairs.len() == 0 {
        Seq::empty()
    } else if pairs.len() == 1 {
        json_member(pairs[0].0@, pairs[0].1@)
    } else {
        json_members(pairs.drop_last()) + seq![','] + json_member(
            pairs.last().0@,
            pairs.last().1@,
        )
    }
}

/// A flat JSON object over string pairs.
pub open spec fn json_object_spec(pairs: Seq<(String, String)>) -> Seq<char> {
    seq!['{'] + json_members(pairs) + seq!['}']
}

/// The lowercase hex digit for a value below 16.
fn hex_digit_char(d: u8) -> (r: char)
    requires
        d < 16,
    ensures
        r == hex_digit(d),
{
    if d < 10 {
        (d + 48) as char
    } else {
        (d + 87) as char
    }
}

/// Appends the escaped form of `s` to `out`.
fn append_escaped(out: &mut String, s: &str)
    ensures
        final(out)@ == old(out)@ + json_escaped(s@),
{
    let n = s.unicode_len();
    let mut i: usize = 0;
    while i < n
        invariant
            n == s@.len(),
            0 <= i <= n,
            out@ == old(out)@ + json_escaped(s@.take(i as int)),
        decreases n - i,
    {
        let c = s.get_char(i);
        proof {
            assert(s@.take(i + 1).drop_last() =~= s@.take(i as int));
            assert(s@.take(i + 1).last() == s@[i as int]);
        }
        if c == '"' {
            out.append("\\\"");
            proof {
                assert(json_escape_char('"') =~= "\\\""@) by {
                    reveal_strlit("\\\"");
                }
            }
        } else if c == '\\' {
            out.append("\\\\");
            proof {
                assert(json_escape_char('\\') =~= "\\\\"@) by {
                    reveal_strlit("\\\\");
                }
            }
        } else if c == '\n' {
            out.append("\\n");
            proof {
                assert(json_escape_char('\n') =~= "\\n"@) by {
                    reveal_strlit("\\n");
                }
            }
        } else if c == '\r' {
            out.append("\\r");
            proof {
                assert(json_escape_char('\r') =~= "\\r"@) by {
                    reveal_strlit("\\r");
                }
            }
        } else if c == '\t' {
            out.append("\\t");
            proof {
                assert(json_escape_char('\t') =~= "\\t"@) by {
                    reveal_strlit("\\t");
                }
            }
        } else if (c as u32) < 32 {
            out.append("\\u00");
            let hi = hex_digit_char((c as u32 / 16) as u8);
            let lo = hex_digit_char((c as u32 % 16) as u8);
            push_char(out, hi);
            push_char(out, lo);
            proof {
                assert(json_escape_char(c) =~= "\\u00"@.push(hi).push(lo)) by {
                    reveal_strlit("\\u00");
                }
            }
        } else {
            push_char(out, c);
            assert(json_escape_char(c) =~= seq![c]);
        }
        proof {
            assert(out@ =~= old(out)@ + json_escaped(s@.take(i + 1)));
        }
        i += 1;
    }
    proof {
        assert(s@.take(n as int) =~= s@);
    }
}

/// Appends a JSON string literal holding `s` to `out`.
fn append_quoted(out: &mut String, s: &str)
    ensures
        final(out)@ == old(out)@ + json_quoted(s@),
{
    push_char(out, '"');
    append_escaped(out, s);
    push_char(out, '"');
    proof {
        assert(out@ =~= old(out)@ + json_quoted(s@));
    }
}

/// Emits a flat JSON object over the given key/value pairs, every value a
/// string, keys in the given order.
pub fn json_object(pairs: &Vec<(String, String)>) -> (r: String)
    ensures
        r@ == json_object_spec(pairs@),
{
    let mut out = String::new();
    push_char(&mut out, '{');
    let mut i: usize = 0;
    while i < pairs.len()
        invariant
            0 <= i <= pairs@.len(),
            out@ == seq!['{'] + json_members(pairs@.take(i as int)),
        decreases pairs@.len() - i,
    {
        proof {
            assert(pairs@.take(i + 1).drop_last() =~= pairs@.take(i as int));
            assert(pairs@.take(i + 1).last() == pairs@[i as int]);
        }
        if i > 0 {
            push_char(&mut out, ',');
        }
        append_quoted(&mut out, pairs[i].0.as_str());
        push_char(&mut out, ':');
        append_quoted(&mut out, pairs[i].1.as_str());
        proof {
            assert(out@ =~= seq!['{'] + json_members(pairs@.take(i + 1)));
        }
        i += 1;
    }
    push_char(&mut out, '}');
    proof {
        assert(pairs@.take(pairs@.len() as int) =~= pairs@);
        assert(out@ =~= json_object_spec(pairs@));
    }
    out
}

/// The persisted record that drives a later uninstallation.
#[derive(Debug, Clone)]
pub struct UninstallMetadata {
    /// The application's name.
    pub app_name: String,
    /// The installed version.
    pub version: String,
    /// Where the application was installed.
    pub install_path: String,
    /// When it was installed, as an RFC 3339 timestamp.
    pub install_date: String,
}

impl UninstallMetadata {
    /// Creates the record.
    pub fn new(app_name: String, version: String, install_path: String, install_date: String) -> (
        r: UninstallMetadata)
        ensures
            r.app_name == app_name,
            r.version == version,
            r.install_path == install_path,
            r.install_date == install_date,
    {
        UninstallMetadata { app_name, version, install_path, install_date }
    }

    /// The record's base key/value pairs, in serialization order.
    pub fn pairs(&self) -> (r: Vec<(String, String)>)
        ensures
            r@.len() == 4,
            r@[0].0@ == "app_name"@ && r@[0].1 == self.app_name,
            r@[1].0@ == "version"@ && r@[1].1 == self.version,
            r@[2].0@ == "install_path"@ && r@[2].1 == self.install_path,
            r@[3].0@ == "install_date"@ && r@[3].1 == self.install_date,
    {
        let mut pairs: Vec<(String, String)> = Vec::new();
        pairs.push((String::from_str("app_name"), self.app_name.clone()));
        pairs.push((String::from_str("version"), self.version.clone()));
        pairs.push((String::from_str("install_path"), self.install_path.clone()));
        pairs.push((String::from_str("install_date"), self.install_date.clone()));
        pairs
    }

    /// The record as a flat JSON object, as [`metadata_json_spec`] lays it
    /// out: keys `app_name`, `version`, `install_path`, `install_date`.
    pub fn to_json(&self) -> (r: String)
        ensures
            r@ == metadata_json_spec(self),
    {
        let pairs = self.pairs();
        let out = json_object(&pairs);
        proof {
            let ps = pairs@;
            let p3 = ps.drop_last();
            let p2 = p3.drop_last();
            let p1 = p2.drop_last();
            assert(p1.len() == 1 && p1[0] == ps[0]);
            assert(p2.len() == 2 && p2[0] == ps[0] && p2.last() == ps[1]);
            assert(p3.len() == 3 && p3.last() == ps[2]);
            assert(json_members(p1) == json_member(ps[0].0@, ps[0].1@));
            assert(json_members(p2) == json_members(p1) + seq![','] + json_member(
                ps[1].0@,
                ps[1].1@,
            ));
            assert(json_members(p3) == json_members(p2) + seq![','] + json_member(
                ps[2].0@,
                ps[2].1@,
            ));
            assert(json_members(ps) == json_members(p3) + seq![','] + json_member(
                ps[3].0@,
                ps[3].1@,
            ));
            assert(out@ =~= metadata_json_spec(self));
        }
        out
    }
}

/// The JSON layout of an [`UninstallMetadata`] record.
pub open spec fn metadata_json_spec(m: &UninstallMetadata) -> Seq<char> {
    seq!['{'] + json_member("app_name"@, m.app_name@) + seq![','] + json_member(
        "version"@,
        m.version@,
    ) + seq![','] + json_member("install_path"@, m.install_path@) + seq![','] + json_member(
        "install_date"@,
        m.install_date@,
    ) + seq!['}']
}

#[verifier::external_type_specification]
#[verifier::external_body]
pub struct ExJsonValue(serde_json::Value);

#[verifier::external_type_specification]
#[verifier::external_body]
pub struct ExJsonError(serde_json::Error);

/// Relies on `serde_json::from_str`: parses a JSON document. What document
/// a given text yields is not modeled here; it is read back through
/// [`json_string_field`], whose result carries the name below.
#[verifier::external_body]
fn parse_json(content: &str) -> (r: Result<serde_json::Value, serde_json::Error>) {
    serde_json::from_str(content)
}

/// Relies on `serde_json::Error`'s `Display` impl for its message text.
#[verifier::external_body]
fn json_error_message(e: &serde_json::Error) -> (r: String) {
    e.to_string()
}

/// The string at `key` of the JSON object `content` parses to: present
/// exactly when the document parses, is an object holding `key`, and the
/// value there is a string. The value is fixed by the JSON grammar; this
/// library only names it.
pub uninterp spec fn json_string_field_of(content: Seq<char>, key: Seq<char>) -> Option<Seq<char>>;

/// Relies on `serde_json::from_str`, `Value::get` and `Value::as_str`: the
/// string at `key` of the parsed document, `None` when the document does
/// not parse, is no object, lacks the key, or holds a non-string there.
/// The result depends on the arguments alone.
#[verifier::external_body]
fn json_string_field(content: &str, key: &str) -> (r: Option<String>)
    ensures
        r matches Some(v) ==> json_string_field_of(content@, key@) == Some(v@),
        r is None ==> json_string_field_of(content@, key@) is None,
{
    serde_json::from_str::<serde_json::Value>(content).ok().and_then(
        |v| v.get(key).and_then(|f| f.as_str()).map(|s| s.to_owned()),
    )
}

/// Drives a symmetric removal of a completed installation.
#[derive(Debug, Clone)]
pub struct Uninstaller {
    /// Where the application was installed.
    pub install_path: String,
    /// The installed version.
    pub version: String,
}

impl Uninstaller {
    /// Creates an uninstaller for a known installation.
    pub fn new(install_path: String, version: String) -> (r: Uninstaller)
        ensures
            r.install_path == install_path,
            r.version == version,
    {
        Uninstaller { install_path, version }
    }

    /// Builds an uninstaller from the fields read out of a metadata record.
    ///
    /// Succeeds exactly when the record held an install path; a missing
    /// version falls back to "unknown".
    pub fn from_fields(install_path: Option<String>, version: Option<String>) -> (r:
        InstallerResult<Uninstaller>)
        ensures
            r is Ok <==> install_path is Some,
            r matches Ok(u) ==> (install_path matches Some(p) && u.install_path == p),
            r matches Ok(u) ==> u.version@ == match version {
                Option::Some(v) => v@,
                Option::None => "unknown"@,
            },
            r matches Err(e) ==> e matches InstallerError::Config(_),
    {
        let path = match install_path {
            Option::Some(p) => p,
            Option::None => {
                return Err(
                    InstallerError::Config(
                        String::from_str("Missing install_path in metadata"),
                    ),
                );
            },
        };
        let version = match version {
            Option::Some(v) => v,
            Option::None => String::from_str("unknown"),
        };
        Ok(Uninstaller { install_path: path, version })
    }

    /// Builds an uninstaller from the text of a metadata record: reads the
    /// document's `install_path` and `version` strings and decides as
    /// [`Uninstaller::from_fields`] does.
    ///
    /// Succeeds exactly when the document holds an `install_path` string,
    /// which becomes the install path; a missing `version` string falls
    /// back to "unknown". An unparseable document fails as a JSON error, a
    /// parsed document without the field as a configuration error.
    pub fn from_json_str(content: &str) -> (r: InstallerResult<Uninstaller>)
        ensures
            r is Ok <==> json_string_field_of(content@, "install_path"@) is Some,
            r matches Ok(u) ==> json_string_field_of(content@, "install_path"@) == Some(
                u.install_path@,
            ),
            r matches Ok(u) ==> u.version@ == match json_string_field_of(content@, "version"@) {
                Option::Some(v) => v,
                Option::None => "unknown"@,
            },
            r matches Err(e) ==> (e matches InstallerError::Json(_) || e
                matches InstallerError::Config(_)),
    {
        let install_path = json_string_field(content, "install_path");
        let version = json_string_field(content, "version");
        if install_path.is_none() {
            // Tell an unparseable document apart from one missing the field.
            match parse_json(content) {
                Err(e) => {
                    return Err(InstallerError::Json(json_error_message(&e)));
                },
                Ok(_) => {
                    return Err(
                        InstallerError::Config(
                            String::from_str("Missing install_path in metadata"),
                        ),
                    );
                },
            }
        }
        Uninstaller::from_fields(install_path, version)
    }

    /// Whether the installation was system-wide: it lives under `/usr`.
    pub fn is_system_install(&self) -> (r: bool)
        ensures
            r == starts_with(self.install_path@, "/usr"@),
    {
        str_starts_with(self.install_path.as_str(), "/usr")
    }
}

} // verus!
