//! What configurations show of themselves in diagnostics, and the text it is written as.
//!
//! A value shows itself as a list of [`DebugField`]s. No field holds a credential: where one is
//! set, the field holds the text `[REDACTED]`.

use vstd::prelude::*;
use std::collections::HashMap;
use crate::models::{TimeUnit, WebsocketMode};
use crate::text::{append_decimal, quote};
use crate::text::{decimal, optional_text, quoted, text_of};

verus! {

/// The text that stands for a value that is set.
pub open spec fn shown_if_set<T>(value: Option<T>, text: &'static str) -> Option<&'static str> {
    if value is Some {
        Some(text)
    } else {
        None
    }
}

/// What is shown in place of a credential that is set.
pub open spec fn redaction<T>(secret: Option<T>) -> Option<&'static str> {
    shown_if_set(secret, "[REDACTED]")
}

/// Replaces a credential by `[REDACTED]`. Only whether it is set stays visible.
pub(crate) fn redact<T>(secret: &Option<T>) -> (shown: Option<&'static str>)
    ensures
        shown == redaction(*secret),
{
    match secret {
        Some(_) => Some("[REDACTED]"),
        None => None,
    }
}

/// One field that a value shows of itself in diagnostics.
pub struct DebugField<'a> {
    pub name: &'static str,
    pub value: DebugValue<'a>,
}

/// What a value shows of one of its fields in diagnostics.
pub enum DebugValue<'a> {
    /// A credential, if it is set, as the quoted text that stands for it.
    Redacted(Option<&'static str>),
    /// A quoted text that is fixed.
    Literal(&'static str),
    /// A value without contents of its own, if it is set, as the bare text that stands for it.
    Opaque(Option<&'static str>),
    Text(&'a String),
    OptionalText(&'a Option<String>),
    Number(u64),
    Flag(bool),
    TimeUnit(Option<TimeUnit>),
    Mode(&'a WebsocketMode),
    Headers(&'a Option<HashMap<String, String>>),
    Proxy(Option<ProxyDebug<'a>>),
    Signature(SignatureDebug),
}

/// What a [`ProxyAuth`] shows of itself in diagnostics.
pub struct ProxyAuthDebug<'a> {
    pub username: &'a String,
    pub password: &'static str,
}

/// What a [`ProxyConfig`] shows of itself in diagnostics.
pub struct ProxyDebug<'a> {
    pub host: &'a String,
    pub port: u16,
    pub protocol: &'a Option<String>,
    pub auth: Option<ProxyAuthDebug<'a>>,
}

/// What a [`SignatureGenerator`] shows of itself in diagnostics.
pub struct SignatureDebug {
    pub api_secret: Option<&'static str>,
    pub private_key: Option<&'static str>,
    pub private_key_passphrase: Option<&'static str>,
}

/// `Some(..)` around a quoted text, or `None`.
pub open spec fn optional_quoted(value: Option<Seq<char>>) -> Seq<char> {
    optional_text(
        match value {
            Some(text) => Some(quoted(text)),
            None => None,
        },
    )
}

/// The characters of an optional fixed text.
pub open spec fn literal_of(value: Option<&'static str>) -> Option<Seq<char>> {
    match value {
        Some(text) => Some(text@),
        None => None,
    }
}

/// The text of a user name and password.
pub open spec fn proxy_auth_text(auth: ProxyAuthDebug) -> Seq<char> {
    "ProxyAuth { username: "@ + quoted(auth.username@) + ", password: "@ + quoted(auth.password@)
        + " }"@
}

/// The text of a proxy.
pub open spec fn proxy_text(proxy: ProxyDebug) -> Seq<char> {
    "ProxyConfig { host: "@ + quoted(proxy.host@) + ", port: "@ + decimal(proxy.port as nat)
        + ", protocol: "@ + optional_quoted(text_of(*proxy.protocol)) + ", auth: "@ + optional_text(
        match proxy.auth {
            Some(auth) => Some(proxy_auth_text(auth)),
            None => None,
        },
    ) + " }"@
}

/// The text of the credentials to sign with.
pub open spec fn signature_text(signature: SignatureDebug) -> Seq<char> {
    "SignatureGenerator { api_secret: "@ + optional_quoted(literal_of(signature.api_secret))
        + ", private_key: "@ + optional_quoted(literal_of(signature.private_key))
        + ", private_key_passphrase: "@ + optional_quoted(
        literal_of(signature.private_key_passphrase),
    ) + " }"@
}

/// The text of a unit of timestamps.
pub open spec fn time_unit_text(unit: TimeUnit) -> Seq<char> {
    match unit {
        TimeUnit::Millisecond => "Millisecond"@,
        TimeUnit::Microsecond => "Microsecond"@,
    }
}

/// The text of a connection mode.
pub open spec fn mode_text(mode: WebsocketMode) -> Seq<char> {
    match mode {
        WebsocketMode::Single => "Single"@,
        WebsocketMode::Pool(size) => "Pool("@ + decimal(size as nat) + ")"@,
    }
}

/// The text of a value. `headers` is the text of the request headers, if the value is those.
pub open spec fn value_text(value: DebugValue, headers: Seq<char>) -> Seq<char> {
    match value {
        DebugValue::Redacted(text) => optional_quoted(literal_of(text)),
        DebugValue::Literal(text) => quoted(text@),
        DebugValue::Opaque(text) => optional_text(literal_of(text)),
        DebugValue::Text(text) => quoted(text@),
        DebugValue::OptionalText(text) => optional_quoted(text_of(*text)),
        DebugValue::Number(n) => decimal(n as nat),
        DebugValue::Flag(flag) => if flag {
            "true"@
        } else {
            "false"@
        },
        DebugValue::TimeUnit(unit) => optional_text(
            match unit {
                Some(unit) => Some(time_unit_text(unit)),
                None => None,
            },
        ),
        DebugValue::Mode(mode) => mode_text(*mode),
        DebugValue::Headers(map) => optional_text(
            match *map {
                Some(_) => Some(headers),
                None => None,
            },
        ),
        DebugValue::Proxy(proxy) => optional_text(
            match proxy {
                Some(proxy) => Some(proxy_text(proxy)),
                None => None,
            },
        ),
        DebugValue::Signature(signature) => signature_text(signature),
    }
}

/// The text of a field.
pub open spec fn field_text(field: DebugField, headers: Seq<char>) -> Seq<char> {
    field.name@ + ": "@ + value_text(field.value, headers)
}

/// Texts with a comma between them.
pub open spec fn joined(parts: Seq<Seq<char>>) -> Seq<char>
    decreases parts.len(),
{
    if parts.len() == 0 {
        seq![]
    } else if parts.len() == 1 {
        parts[0]
    } else {
        joined(parts.drop_last()) + ", "@ + parts.last()
    }
}

/// Joining texts adds them one by one, each but the first behind a comma and a space.
pub proof fn law_joined_grows(parts: Seq<Seq<char>>, count: int)
    requires
        0 <= count < parts.len(),
    ensures
        joined(parts.take(0)) == Seq::<char>::empty(),
        count == 0 ==> joined(parts.take(1)) == parts[0],
        count > 0 ==> joined(parts.take(count + 1)) == joined(parts.take(count)) + ", "@
            + parts[count],
{
    assert(parts.take(count + 1).drop_last() =~= parts.take(count));
}

/// The text of a value with a name and fields, on one line. `parts` are the texts of the fields.
pub open spec fn braced(name: Seq<char>, parts: Seq<Seq<char>>) -> Seq<char> {
    if parts.len() == 0 {
        name
    } else {
        name + " { "@ + joined(parts) + " }"@
    }
}

/// The text of a value with a name and fields, on one line. `headers` is the text of the request
/// headers, if one of the fields holds those.
pub open spec fn struct_text(
    name: Seq<char>,
    fields: Seq<DebugField>,
    headers: Seq<char>,
) -> Seq<char> {
    braced(name, Seq::new(fields.len(), |i: int| field_text(fields[i], headers)))
}

/// Whether two fields are the same but for the request headers that they hold.
pub open spec fn same_but_headers(one: DebugField, other: DebugField) -> bool {
    &&& one.name == other.name
    &&& match (one.value, other.value) {
        (DebugValue::Headers(headers), DebugValue::Headers(others)) => headers is Some
            <==> others is Some,
        _ => one.value == other.value,
    }
}

/// The text of fields depends on the request headers that they hold through the text of those.
pub(crate) proof fn lemma_struct_text_takes_headers(
    name: Seq<char>,
    fields: Seq<DebugField>,
    others: Seq<DebugField>,
    headers: Seq<char>,
)
    requires
        fields.len() == others.len(),
        forall|i: int| 0 <= i < fields.len() ==> same_but_headers(#[trigger] fields[i], others[i]),
    ensures
        struct_text(name, fields, headers) == struct_text(name, others, headers),
{
    assert forall|i: int| 0 <= i < fields.len() implies field_text(#[trigger] fields[i], headers)
        == field_text(others[i], headers) by {
        assert(same_but_headers(fields[i], others[i]));
    }
    assert(Seq::new(fields.len(), |i: int| field_text(fields[i], headers)) =~= Seq::new(
        others.len(),
        |i: int| field_text(others[i], headers),
    ));
}

/// Whether `entries` holds every entry of a map once, in any order.
pub open spec fn lists_entries(
    entries: Seq<(String, String)>,
    headers: Map<String, String>,
) -> bool {
    &&& entries.no_duplicates()
    &&& forall|name: String, value: String| #[trigger]
        entries.contains((name, value)) <==> headers.contains_pair(name, value)
}

/// The text of map entries.
pub open spec fn entries_text(entries: Seq<(String, String)>) -> Seq<char> {
    joined(
        Seq::new(
            entries.len(),
            |i: int| quoted(entries[i].0@) + ": "@ + quoted(entries[i].1@),
        ),
    )
}

/// Whether `text` shows the entries of a map, each once, in some order.
pub open spec fn shows_headers(headers: Map<String, String>, text: Seq<char>) -> bool {
    exists|entries: Seq<(String, String)>|
        lists_entries(entries, headers) && text == "{"@ + #[trigger] entries_text(entries) + "}"@
}

/// Writes a map with `{:?}`, the `Debug` of `HashMap`: its entries between braces, each once, as
/// the quoted key and the quoted value. The order of the entries is left open.
#[verifier::external_body]
pub(crate) fn headers_text(headers: &HashMap<String, String>) -> (text: String)
    ensures
        shows_headers(headers@, text@),
{
    format!("{:?}", headers)
}

/// Whether a map has no more than one entry.
pub open spec fn at_most_one_entry(headers: Map<String, String>) -> bool {
    forall|a: String, b: String|
        #![trigger headers.dom().contains(a), headers.dom().contains(b)]
        headers.dom().contains(a) && headers.dom().contains(b) ==> a == b
}

/// A map with at most one entry is shown by one text only.
pub proof fn law_few_headers_have_one_text(
    headers: Map<String, String>,
    one: Seq<char>,
    other: Seq<char>,
)
    requires
        at_most_one_entry(headers),
        shows_headers(headers, one),
        shows_headers(headers, other),
    ensures
        one == other,
{
    let first = choose|entries: Seq<(String, String)>|
        lists_entries(entries, headers) && one == "{"@ + #[trigger] entries_text(entries) + "}"@;
    let second = choose|entries: Seq<(String, String)>|
        lists_entries(entries, headers) && other == "{"@ + #[trigger] entries_text(entries) + "}"@;
    lemma_few_entries(headers, first, second);
    lemma_few_entries(headers, second, first);
    assert(first =~= second);
}

proof fn lemma_few_entries(
    headers: Map<String, String>,
    entries: Seq<(String, String)>,
    others: Seq<(String, String)>,
)
    requires
        at_most_one_entry(headers),
        lists_entries(entries, headers),
        lists_entries(others, headers),
    ensures
        entries.len() <= 1,
        entries.len() == 1 ==> others.len() > 0 && others[0] == entries[0],
{
    assert forall|i: int| 0 <= i < entries.len() implies #[trigger] headers.contains_pair(
        entries[i].0,
        entries[i].1,
    ) by {
        assert(entries.contains((entries[i].0, entries[i].1)));
    }
    if entries.len() > 1 {
        assert(headers.contains_pair(entries[0].0, entries[0].1));
        assert(headers.contains_pair(entries[1].0, entries[1].1));
        assert(entries[0] == entries[1]);
    }
    if entries.len() == 1 {
        assert(headers.contains_pair(entries[0].0, entries[0].1));
        assert(others.contains((entries[0].0, entries[0].1)));
        assert(others.contains((others[0].0, others[0].1)));
        assert(headers.contains_pair(others[0].0, others[0].1));
    }
}

/// What a [`ProxyAuth`](crate::config::ProxyAuth) shows of itself, with its texts quoted.
pub struct QuotedProxyAuth {
    pub username: String,
    pub password: String,
}

impl QuotedProxyAuth {
    /// The text of the user name and password.
    pub open spec fn text_spec(&self) -> Seq<char> {
        "ProxyAuth { username: "@ + self.username@ + ", password: "@ + self.password@ + " }"@
    }

    /// The text of the user name and password.
    pub fn text(&self) -> (text: String)
        ensures
            text@ == self.text_spec(),
    {
        let mut text = String::from("ProxyAuth { username: ");
        text.append(self.username.as_str());
        text.append(", password: ");
        text.append(self.password.as_str());
        text.append(" }");
        text
    }
}

/// What a [`ProxyConfig`](crate::config::ProxyConfig) shows of itself, with its texts quoted.
pub struct QuotedProxy {
    pub host: String,
    pub port: u16,
    pub protocol: Option<String>,
    pub auth: Option<QuotedProxyAuth>,
}

impl QuotedProxy {
    /// The text of the proxy.
    pub open spec fn text_spec(&self) -> Seq<char> {
        "ProxyConfig { host: "@ + self.host@ + ", port: "@ + decimal(self.port as nat)
            + ", protocol: "@ + optional_text(text_of(self.protocol)) + ", auth: "@ + optional_text(
            match self.auth {
                Some(auth) => Some(auth.text_spec()),
                None => None,
            },
        ) + " }"@
    }

    /// The text of the proxy.
    pub fn text(&self) -> (text: String)
        ensures
            text@ == self.text_spec(),
    {
        let mut text = String::from("ProxyConfig { host: ");
        text.append(self.host.as_str());
        text.append(", port: ");
        append_decimal(&mut text, self.port as u64);
        text.append(", protocol: ");
        append_optional(&mut text, &self.protocol);
        text.append(", auth: ");
        let auth: Option<String> = match &self.auth {
            Some(auth) => Some(auth.text()),
            None => None,
        };
        append_optional(&mut text, &auth);
        text.append(" }");
        text
    }
}

/// What a [`SignatureGenerator`](crate::config::SignatureGenerator) shows of itself, with its texts
/// quoted.
pub struct QuotedSignature {
    pub api_secret: Option<String>,
    pub private_key: Option<String>,
    pub private_key_passphrase: Option<String>,
}

impl QuotedSignature {
    /// The text of the credentials to sign with.
    pub open spec fn text_spec(&self) -> Seq<char> {
        "SignatureGenerator { api_secret: "@ + optional_text(text_of(self.api_secret))
            + ", private_key: "@ + optional_text(text_of(self.private_key))
            + ", private_key_passphrase: "@ + optional_text(text_of(self.private_key_passphrase))
            + " }"@
    }

    /// The text of the credentials to sign with.
    pub fn text(&self) -> (text: String)
        ensures
            text@ == self.text_spec(),
    {
        let mut text = String::from("SignatureGenerator { api_secret: ");
        append_optional(&mut text, &self.api_secret);
        text.append(", private_key: ");
        append_optional(&mut text, &self.private_key);
        text.append(", private_key_passphrase: ");
        append_optional(&mut text, &self.private_key_passphrase);
        text.append(" }");
        text
    }
}

/// What a value shows of one of its fields, with its texts quoted.
pub enum QuotedValue<'a> {
    /// A text that is written as it is.
    Plain(String),
    /// A text, if it is set, that is written as it is.
    Optional(Option<String>),
    Number(u64),
    Flag(bool),
    TimeUnit(Option<TimeUnit>),
    Mode(&'a WebsocketMode),
    Proxy(Option<QuotedProxy>),
    Signature(QuotedSignature),
}

impl<'a> QuotedValue<'a> {
    /// The text of the value.
    pub open spec fn text_spec(&self) -> Seq<char> {
        match self {
            QuotedValue::Plain(text) => text@,
            QuotedValue::Optional(text) => optional_text(text_of(*text)),
            QuotedValue::Number(n) => decimal(*n as nat),
            QuotedValue::Flag(flag) => if *flag {
                "true"@
            } else {
                "false"@
            },
            QuotedValue::TimeUnit(unit) => optional_text(
                match *unit {
                    Some(unit) => Some(time_unit_text(unit)),
                    None => None,
                },
            ),
            QuotedValue::Mode(mode) => mode_text(**mode),
            QuotedValue::Proxy(proxy) => optional_text(
                match *proxy {
                    Some(proxy) => Some(proxy.text_spec()),
                    None => None,
                },
            ),
            QuotedValue::Signature(signature) => signature.text_spec(),
        }
    }

    /// The text of the value.
    pub fn text(&self) -> (text: String)
        ensures
            text@ == self.text_spec(),
    {
        let mut text = String::new();
        match self {
            QuotedValue::Plain(plain) => text.append(plain.as_str()),
            QuotedValue::Optional(optional) => append_optional(&mut text, optional),
            QuotedValue::Number(n) => append_decimal(&mut text, *n),
            QuotedValue::Flag(flag) => if *flag {
                text.append("true")
            } else {
                text.append("false")
            },
            QuotedValue::TimeUnit(unit) => {
                let name: Option<String> = match unit {
                    Some(TimeUnit::Millisecond) => Some(String::from("Millisecond")),
                    Some(TimeUnit::Microsecond) => Some(String::from("Microsecond")),
                    None => None,
                };
                append_optional(&mut text, &name);
            },
            QuotedValue::Mode(mode) => match mode {
                WebsocketMode::Single => text.append("Single"),
                WebsocketMode::Pool(size) => {
                    text.append("Pool(");
                    append_decimal(&mut text, *size as u64);
                    text.append(")");
                },
            },
            QuotedValue::Proxy(proxy) => {
                let shown: Option<String> = match proxy {
                    Some(proxy) => Some(proxy.text()),
                    None => None,
                };
                append_optional(&mut text, &shown);
            },
            QuotedValue::Signature(signature) => text.append(signature.text().as_str()),
        }
        text
    }
}

/// One field that a value shows of itself, with its texts quoted.
pub struct QuotedField<'a> {
    pub name: &'static str,
    pub value: QuotedValue<'a>,
}

impl<'a> QuotedField<'a> {
    /// The text of the field.
    pub open spec fn text_spec(&self) -> Seq<char> {
        self.name@ + ": "@ + self.value.text_spec()
    }
}

/// Writes a value with a name and fields, on one line.
pub fn render(name: &str, fields: &Vec<QuotedField<'_>>) -> (text: String)
    ensures
        text@ == braced(name@, Seq::new(fields@.len(), |i: int| fields@[i].text_spec())),
{
    let ghost parts = Seq::new(fields@.len(), |i: int| fields@[i].text_spec());
    let mut text = String::from(name);
    if fields.len() == 0 {
        return text;
    }
    text.append(" { ");
    let ghost start = text@;
    for i in 0..fields.len()
        invariant
            parts == Seq::new(fields@.len(), |i: int| fields@[i].text_spec()),
            text@ == start + joined(parts.take(i as int)),
    {
        if i > 0 {
            text.append(", ");
        }
        text.append(fields[i].name);
        text.append(": ");
        text.append(fields[i].value.text().as_str());
        proof {
            assert(parts.take(i + 1).drop_last() =~= parts.take(i as int));
        }
    }
    assert(parts.take(fields@.len() as int) =~= parts);
    text.append(" }");
    text
}

fn append_optional(out: &mut String, value: &Option<String>)
    ensures
        final(out)@ == old(out)@ + optional_text(text_of(*value)),
{
    match value {
        Some(text) => {
            out.append("Some(");
            out.append(text.as_str());
            out.append(")");
        },
        None => out.append("None"),
    }
}

fn quote_literal(value: Option<&'static str>) -> (result: Option<String>)
    ensures
        optional_text(text_of(result)) == optional_quoted(literal_of(value)),
{
    match value {
        Some(text) => Some(quote(text)),
        None => None,
    }
}

fn quote_string(value: &Option<String>) -> (result: Option<String>)
    ensures
        optional_text(text_of(result)) == optional_quoted(text_of(*value)),
{
    match value {
        Some(text) => Some(quote(text.as_str())),
        None => None,
    }
}

impl<'a> ProxyAuthDebug<'a> {
    /// Quotes the texts that are shown.
    pub(crate) fn quote(&self) -> (result: QuotedProxyAuth)
        ensures
            result.text_spec() == proxy_auth_text(*self),
    {
        QuotedProxyAuth { username: quote(self.username.as_str()), password: quote(self.password) }
    }
}

impl<'a> ProxyDebug<'a> {
    /// Quotes the texts that are shown.
    pub(crate) fn quote(&self) -> (result: QuotedProxy)
        ensures
            result.text_spec() == proxy_text(*self),
    {
        QuotedProxy {
            host: quote(self.host.as_str()),
            port: self.port,
            protocol: quote_string(self.protocol),
            auth: match &self.auth {
                Some(auth) => Some(auth.quote()),
                None => None,
            },
        }
    }
}

impl SignatureDebug {
    /// Quotes the texts that are shown.
    pub(crate) fn quote(&self) -> (result: QuotedSignature)
        ensures
            result.text_spec() == signature_text(*self),
    {
        QuotedSignature {
            api_secret: quote_literal(self.api_secret),
            private_key: quote_literal(self.private_key),
            private_key_passphrase: quote_literal(self.private_key_passphrase),
        }
    }
}

impl<'a> DebugValue<'a> {
    /// Quotes the texts that are shown. `headers` is the text of the request headers, if the value
    /// is those.
    pub(crate) fn quote(&self, headers: &str) -> (result: QuotedValue<'a>)
        ensures
            result.text_spec() == value_text(*self, headers@),
    {
        match self {
            DebugValue::Redacted(text) => QuotedValue::Optional(quote_literal(*text)),
            DebugValue::Literal(text) => QuotedValue::Plain(quote(text)),
            DebugValue::Opaque(text) => QuotedValue::Optional(
                match text {
                    Some(text) => Some(String::from(*text)),
                    None => None,
                },
            ),
            DebugValue::Text(text) => QuotedValue::Plain(quote(text.as_str())),
            DebugValue::OptionalText(text) => QuotedValue::Optional(quote_string(text)),
            DebugValue::Number(n) => QuotedValue::Number(*n),
            DebugValue::Flag(flag) => QuotedValue::Flag(*flag),
            DebugValue::TimeUnit(unit) => QuotedValue::TimeUnit(*unit),
            DebugValue::Mode(mode) => QuotedValue::Mode(mode),
            DebugValue::Headers(map) => QuotedValue::Optional(
                match map {
                    Some(_) => Some(String::from(headers)),
                    None => None,
                },
            ),
            DebugValue::Proxy(proxy) => QuotedValue::Proxy(
                match proxy {
                    Some(proxy) => Some(proxy.quote()),
                    None => None,
                },
            ),
            DebugValue::Signature(signature) => QuotedValue::Signature(signature.quote()),
        }
    }
}

/// Writes a value with a name and fields, on one line. `headers` is the text of the request
/// headers, if one of the fields holds those.
pub(crate) fn write_fields(name: &str, fields: &Vec<DebugField<'_>>, headers: &str) -> (text:
    String)
    ensures
        text@ == struct_text(name@, fields@, headers@),
{
    let mut result: Vec<QuotedField<'_>> = Vec::new();
    for i in 0..fields.len()
        invariant
            result@.len() == i,
            forall|j: int|
                0 <= j < i ==> (#[trigger] result@[j]).text_spec() == field_text(
                    fields@[j],
                    headers@,
                ),
    {
        result.push(
            QuotedField { name: fields[i].name, value: fields[i].value.quote(headers) },
        );
    }
    assert(Seq::new(result@.len(), |i: int| result@[i].text_spec()) =~= Seq::new(
        fields@.len(),
        |i: int| field_text(fields@[i], headers@),
    ));
    render(name, &result)
}

/// The text of a quoted user name and password, for all texts.
pub proof fn law_quoted_proxy_auth_text(auth: QuotedProxyAuth, text: String)
    requires
        call_ensures(QuotedProxyAuth::text, (&auth,), text),
    ensures
        text@ == "ProxyAuth { username: "@ + auth.username@ + ", password: "@ + auth.password@
            + " }"@,
{
}

/// The text of a quoted proxy, for every proxy. A user name and password are written as they are by
/// themselves.
pub proof fn law_quoted_proxy_text(proxy: QuotedProxy, auth: String, text: String)
    requires
        call_ensures(QuotedProxy::text, (&proxy,), text),
        proxy.auth matches Some(set) ==> call_ensures(QuotedProxyAuth::text, (&set,), auth),
    ensures
        text@ == "ProxyConfig { host: "@ + proxy.host@ + ", port: "@ + decimal(proxy.port as nat)
            + ", protocol: "@ + (match proxy.protocol {
            Some(protocol) => "Some("@ + protocol@ + ")"@,
            None => "None"@,
        }) + ", auth: "@ + (if proxy.auth is Some {
            "Some("@ + auth@ + ")"@
        } else {
            "None"@
        }) + " }"@,
{
}

/// The text of quoted credentials, for all credentials.
pub proof fn law_quoted_signature_text(signature: QuotedSignature, text: String)
    requires
        call_ensures(QuotedSignature::text, (&signature,), text),
    ensures
        text@ == "SignatureGenerator { api_secret: "@ + (match signature.api_secret {
            Some(shown) => "Some("@ + shown@ + ")"@,
            None => "None"@,
        }) + ", private_key: "@ + (match signature.private_key {
            Some(shown) => "Some("@ + shown@ + ")"@,
            None => "None"@,
        }) + ", private_key_passphrase: "@ + (match signature.private_key_passphrase {
            Some(shown) => "Some("@ + shown@ + ")"@,
            None => "None"@,
        }) + " }"@,
{
}

/// The text of a quoted value, for every kind of value. A proxy and credentials are written as they
/// are by themselves.
pub proof fn law_quoted_value_text(
    value: QuotedValue<'_>,
    proxy: String,
    signature: String,
    text: String,
)
    requires
        call_ensures(QuotedValue::text, (&value,), text),
        value matches QuotedValue::Proxy(Some(set)) ==> call_ensures(
            QuotedProxy::text,
            (&set,),
            proxy,
        ),
        value matches QuotedValue::Signature(set) ==> call_ensures(
            QuotedSignature::text,
            (&set,),
            signature,
        ),
    ensures
        value matches QuotedValue::Plain(plain) ==> text@ == plain@,
        value matches QuotedValue::Optional(Some(optional)) ==> text@ == "Some("@ + optional@
            + ")"@,
        value matches QuotedValue::Optional(None) ==> text@ == "None"@,
        value matches QuotedValue::Number(number) ==> text@ == decimal(number as nat),
        value matches QuotedValue::Flag(flag) ==> text@ == (if flag {
            "true"@
        } else {
            "false"@
        }),
        value matches QuotedValue::TimeUnit(unit) ==> text@ == (match unit {
            Some(TimeUnit::Millisecond) => "Some("@ + "Millisecond"@ + ")"@,
            Some(TimeUnit::Microsecond) => "Some("@ + "Microsecond"@ + ")"@,
            None => "None"@,
        }),
        value matches QuotedValue::Mode(mode) ==> text@ == (match *mode {
            WebsocketMode::Single => "Single"@,
            WebsocketMode::Pool(size) => "Pool("@ + decimal(size as nat) + ")"@,
        }),
        value matches QuotedValue::Proxy(set) ==> text@ == (if set is Some {
            "Some("@ + proxy@ + ")"@
        } else {
            "None"@
        }),
        value is Signature ==> text@ == signature@,
{
}

/// A value without fields is written as its name. With one field, the field stands between braces;
/// every further field is added before the closing brace, behind a comma. A field is written as its
/// name, a colon and the text of its value.
pub proof fn law_render_adds_fields(
    name: &str,
    fields: Vec<QuotedField<'_>>,
    text: String,
    more: Vec<QuotedField<'_>>,
    longer: String,
    value: String,
)
    requires
        call_ensures(render, (name, &fields), text),
        call_ensures(render, (name, &more), longer),
        more@.len() == fields@.len() + 1,
        more@.drop_last() == fields@,
        call_ensures(QuotedValue::text, (&more@.last().value,), value),
    ensures
        fields@.len() == 0 ==> text@ == name@,
        fields@.len() == 0 ==> longer@ == name@ + " { "@ + (more@.last().name@ + ": "@ + value@)
            + " }"@,
        fields@.len() > 0 ==> exists|open: Seq<char>|
            text@ == #[trigger] (open + " }"@) && longer@ == open + ", "@ + (more@.last().name@
                + ": "@ + value@) + " }"@,
{
    let parts = Seq::new(fields@.len(), |i: int| fields@[i].text_spec());
    let all = Seq::new(more@.len(), |i: int| more@[i].text_spec());
    assert(all.drop_last() =~= parts);
    if fields@.len() > 0 {
        let open = name@ + " { "@ + joined(parts);
        assert(text@ == open + " }"@);
        assert(longer@ =~= open + ", "@ + all.last() + " }"@);
    }
}

} // verus!
