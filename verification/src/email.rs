//! Invitation mail: its settings, the link it carries and its text.
use vstd::prelude::*;
use crate::numbers::parse_u16_spec;
use crate::numbers::parse_u16;
use crate::text::{concat, opt_view, to_owned, trim_char_end_seq, trim_end_char};

verus! {

/// Where and how invitation mail is sent.
#[derive(Debug, Clone, PartialEq, Eq)]
pub struct EmailConfig {
    pub smtp_host: String,
    pub smtp_port: u16,
    pub from: String,
    pub base_url: String,
}

/// A setting's value, or `default` when it is not set.
pub open spec fn or_default(value: Option<Seq<char>>, default: Seq<char>) -> Seq<char> {
    match value {
        Some(v) => v,
        None => default,
    }
}

fn value_or(value: Option<&str>, default: &str) -> (r: String)
    ensures
        r@ == or_default(opt_view(value), default@),
{
    match value {
        Some(v) => to_owned(v),
        None => to_owned(default),
    }
}

impl EmailConfig {
    /// The settings from the values of `SMTP_HOST`, `SMTP_PORT`,
    /// `SMTP_FROM` and `BASE_URL`: each defaults when not set, and the port
    /// also when it is not a number that fits a port.
    pub fn from_values(
        smtp_host: Option<&str>,
        smtp_port: Option<&str>,
        from: Option<&str>,
        base_url: Option<&str>,
    ) -> (r: EmailConfig)
        ensures
            r.smtp_host@ == or_default(opt_view(smtp_host), "localhost"@),
            r.smtp_port == match smtp_port {
                Some(p) => match parse_u16_spec(p@) {
                    Some(n) => n,
                    None => 1025,
                },
                None => 1025,
            },
            r.from@ == or_default(opt_view(from), "no-reply@local.test"@),
            r.base_url@ == or_default(opt_view(base_url), "http://localhost:3000"@),
    {
        let port: u16 = match smtp_port {
            Some(p) => match parse_u16(p) {
                Some(n) => n,
                None => 1025,
            },
            None => 1025,
        };
        EmailConfig {
            smtp_host: value_or(smtp_host, "localhost"),
            smtp_port: port,
            from: value_or(from, "no-reply@local.test"),
            base_url: value_or(base_url, "http://localhost:3000"),
        }
    }

    /// The link that accepts an invitation: the base URL without trailing
    /// slashes, the accept path, and the token.
    pub fn invite_url(&self, token: &str) -> (r: String)
        ensures
            r@ == trim_char_end_seq(self.base_url@, '/') + "/identity/accept-invite?token="@
                + token@,
    {
        let base = trim_end_char(self.base_url.as_str(), '/');
        let a = concat(base.as_str(), "/identity/accept-invite?token=");
        concat(a.as_str(), token)
    }
}

/// An optional name, or `default` when it is missing or empty.
pub open spec fn name_or(value: Option<Seq<char>>, default: Seq<char>) -> Seq<char> {
    match value {
        Some(v) => if v.len() > 0 {
            v
        } else {
            default
        },
        None => default,
    }
}

fn name_or_default(value: Option<&str>, default: &str) -> (r: String)
    ensures
        r@ == name_or(opt_view(value), default@),
{
    match value {
        Some(v) => if v.is_empty() {
            to_owned(default)
        } else {
            to_owned(v)
        },
        None => to_owned(default),
    }
}

/// The subject of an invitation to a store.
pub fn invite_subject(store_name: &str) -> (r: String)
    ensures
        r@ == store_name@ + ": staff invitation"@,
{
    concat(store_name, ": staff invitation")
}

/// The text of an invitation: it greets the invitee by name (or "there"),
/// names the store and the role (or "staff"), and gives the link.
pub open spec fn invite_body_spec(
    name: Seq<char>,
    store: Seq<char>,
    role: Seq<char>,
    url: Seq<char>,
) -> Seq<char> {
    "Hello "@ + name + ",\n\nYou have been invited to "@ + store + " as "@ + role
        + ".\n\nAccept invite: "@ + url
        + "\n\nIf you did not expect this, you can ignore this email.\n"@
}

/// The text of an invitation: it greets the invitee by name (or "there"),
/// names the store and the role (or "staff"), and gives the link.
pub fn invite_body(
    display_name: Option<&str>,
    store_name: &str,
    role_name: Option<&str>,
    invite_url: &str,
) -> (r: String)
    ensures
        r@ == invite_body_spec(
            name_or(opt_view(display_name), "there"@),
            store_name@,
            name_or(opt_view(role_name), "staff"@),
            invite_url@,
        ),
{
    let name = name_or_default(display_name, "there");
    let role = name_or_default(role_name, "staff");
    let a = concat("Hello ", name.as_str());
    let b = concat(a.as_str(), ",\n\nYou have been invited to ");
    let c = concat(b.as_str(), store_name);
    let d = concat(c.as_str(), " as ");
    let e = concat(d.as_str(), role.as_str());
    let f = concat(e.as_str(), ".\n\nAccept invite: ");
    let g = concat(f.as_str(), invite_url);
    concat(g.as_str(), "\n\nIf you did not expect this, you can ignore this email.\n")
}

} // verus!
