//! The command line of a dprun game session.
//!
//! The options of a session are collected by a builder and turned into the
//! words of the command that starts dprun. Starting the process is left to
//! the caller.

use vstd::prelude::*;
use vstd::string::StringExecFns;

use crate::guid::{guid_text, GUID};
use crate::options::same_text;
use crate::text::{bytes_hex, push_bytes_hex, push_decimal, signed_decimal};

verus! {

/// The port on which the host server listens unless an address part says
/// otherwise.
pub const DEFAULT_HOST_SERVER_PORT: u16 = 2197;

/// The service provider that dprun itself implements.
pub open spec fn dprun_provider() -> GUID {
    GUID(0xb1ed2367, 0x609b, 0x4c5c, 0x87, 0x55, 0xd2, 0xa2, 0x9b, 0xb9, 0xa5, 0x54)
}

/// The data type of the address part that holds an internet port.
pub open spec fn inet_port() -> GUID {
    GUID(0xe4524541, 0x8ea5, 0x11d1, 0x8a, 0x96, 0x00, 0x60, 0x97, 0xb0, 0x14, 0x11)
}

fn guid_dprunsp() -> (r: GUID)
    ensures
        r == dprun_provider(),
{
    GUID(0xb1ed2367, 0x609b, 0x4c5c, 0x87, 0x55, 0xd2, 0xa2, 0x9b, 0xb9, 0xa5, 0x54)
}

fn guid_inetport() -> (r: GUID)
    ensures
        r == inet_port(),
{
    GUID(0xe4524541, 0x8ea5, 0x11d1, 0x8a, 0x96, 0x00, 0x60, 0x97, 0xb0, 0x14, 0x11)
}

/// The kind of session: one that is hosted or one that is joined.
#[derive(Debug, Clone, Copy, PartialEq, Eq)]
pub enum SessionType {
    /// Host a session, under the given GUID or under one that dprun makes up.
    Host(Option<GUID>),
    /// Join the session with the given GUID.
    Join(GUID),
}

/// A GUID that names a DirectPlay object, or one of the names that dprun
/// knows for common GUIDs.
#[derive(Debug, Clone, PartialEq, Eq)]
pub enum DPGUIDOrNamed {
    GUID(GUID),
    Named(String),
}

impl DPGUIDOrNamed {
    /// The word that stands for this GUID or name on the command line.
    pub open spec fn text(self) -> Seq<char> {
        match self {
            DPGUIDOrNamed::GUID(guid) => guid_text(guid),
            DPGUIDOrNamed::Named(name) => name@,
        }
    }

    /// Whether this is the given GUID or the given name.
    pub open spec fn names(self, guid: GUID, name: Seq<char>) -> bool {
        match self {
            DPGUIDOrNamed::GUID(own) => own == guid,
            DPGUIDOrNamed::Named(own) => own@ == name,
        }
    }

    /// The word that stands for this GUID or name on the command line.
    pub fn into_string(self) -> (r: String)
        ensures
            r@ == self.text(),
    {
        match self {
            DPGUIDOrNamed::GUID(guid) => guid.to_string(),
            DPGUIDOrNamed::Named(string) => string,
        }
    }

    /// Appends the word that stands for this GUID or name.
    pub fn push_text(&self, out: &mut String)
        ensures
            final(out)@ == old(out)@ + self.text(),
    {
        match self {
            DPGUIDOrNamed::GUID(guid) => {
                let word = guid.to_string();
                out.append(word.as_str());
            },
            DPGUIDOrNamed::Named(string) => {
                out.append(string.as_str());
            },
        }
    }

    /// Whether this is the given GUID or the given name.
    pub fn is_named(&self, guid: GUID, name: &str) -> (r: bool)
        ensures
            r == self.names(guid, name@),
    {
        match self {
            DPGUIDOrNamed::GUID(own) => *own == guid,
            DPGUIDOrNamed::Named(own) => same_text(own.as_str(), name),
        }
    }
}

/// The value of an address part. DirectPlay keeps every value as raw memory;
/// the command line of dprun takes numbers and binary values in a typed form.
#[derive(Debug, Clone, PartialEq, Eq)]
pub enum DPAddressValue {
    /// A numeric value.
    Number(i32),
    /// A string value.
    String(String),
    /// A binary value.
    Binary(Vec<u8>),
}

impl DPAddressValue {
    /// The value as the command line takes it: a number in decimal after
    /// `i:`, a string as it is, a binary value in lower-case hex after `b:`.
    pub open spec fn text(self) -> Seq<char> {
        match self {
            DPAddressValue::Number(val) => "i:"@ + signed_decimal(val as int),
            DPAddressValue::String(val) => val@,
            DPAddressValue::Binary(val) => "b:"@ + bytes_hex(val@, val@.len()),
        }
    }

    /// Appends the value as the command line takes it.
    pub fn push_text(&self, out: &mut String)
        ensures
            final(out)@ == old(out)@ + self.text(),
    {
        match self {
            DPAddressValue::Number(val) => {
                out.append("i:");
                push_decimal(out, *val);
                assert(out@ =~= old(out)@ + self.text());
            },
            DPAddressValue::String(val) => {
                out.append(val.as_str());
            },
            DPAddressValue::Binary(val) => {
                out.append("b:");
                push_bytes_hex(out, val.as_slice());
                assert(out@ =~= old(out)@ + self.text());
            },
        }
    }
}

/// One part of a DirectPlay address: a data type and a value.
#[derive(Debug, Clone, PartialEq, Eq)]
pub struct DPAddressPart {
    pub data_type: DPGUIDOrNamed,
    pub value: DPAddressValue,
}

impl DPAddressPart {
    /// The part as one word of the command line: data type, `=`, value.
    pub open spec fn text(self) -> Seq<char> {
        self.data_type.text() + "="@ + self.value.text()
    }

    /// Whether the part holds an internet port.
    pub open spec fn is_port(self) -> bool {
        self.data_type.names(inet_port(), "INetPort"@)
    }

    /// The part as one word of the command line.
    pub fn to_word(&self) -> (r: String)
        ensures
            r@ == self.text(),
    {
        let mut out = String::new();
        self.data_type.push_text(&mut out);
        out.append("=");
        self.value.push_text(&mut out);
        assert(out@ =~= self.text());
        out
    }
}

/// The options of a session while they are collected.
#[derive(Debug, Clone, PartialEq, Eq)]
pub struct DPRunOptionsBuilder {
    pub session_type: Option<SessionType>,
    pub player_name: Option<String>,
    pub service_provider: Option<DPGUIDOrNamed>,
    /// Whether a handler relays the messages of the service provider.
    pub service_provider_handler: bool,
    pub application: Option<GUID>,
    pub address: Vec<DPAddressPart>,
    pub session_name: Option<String>,
    pub session_password: Option<String>,
    pub cwd: Option<String>,
}

/// The options of a session, checked and complete.
#[derive(Debug, Clone, PartialEq, Eq)]
pub struct DPRunOptions {
    pub session_type: SessionType,
    pub player_name: String,
    pub service_provider: DPGUIDOrNamed,
    /// Whether a handler relays the messages of the service provider.
    pub service_provider_handler: bool,
    pub application: GUID,
    pub address: Vec<DPAddressPart>,
    pub session_name: Option<String>,
    pub session_password: Option<String>,
    pub cwd: Option<String>,
}

impl DPRunOptions {
    /// Starts collecting options: nothing is set and the address is empty.
    pub fn builder() -> (r: DPRunOptionsBuilder)
        ensures
            r.session_type is None,
            r.player_name is None,
            r.service_provider is None,
            !r.service_provider_handler,
            r.application is None,
            r.address@ == Seq::<DPAddressPart>::empty(),
            r.session_name is None,
            r.session_password is None,
            r.cwd is None,
    {
        DPRunOptionsBuilder {
            session_type: None,
            player_name: None,
            service_provider: None,
            service_provider_handler: false,
            application: None,
            address: Vec::new(),
            session_name: None,
            session_password: None,
            cwd: None,
        }
    }
}

impl Default for DPRunOptionsBuilder {
    /// A builder with nothing set, as `DPRunOptions::builder` gives it.
    fn default() -> (r: Self)
        ensures
            r.session_type is None,
            r.player_name is None,
            r.service_provider is None,
            !r.service_provider_handler,
            r.application is None,
            r.address@ == Seq::<DPAddressPart>::empty(),
            r.session_name is None,
            r.session_password is None,
            r.cwd is None,
    {
        DPRunOptions::builder()
    }
}

impl DPRunOptionsBuilder {
    /// Whether the service provider is the one that dprun implements, which
    /// cannot work without a handler.
    pub open spec fn needs_handler(self) -> bool {
        self.service_provider matches Some(provider) && provider.names(dprun_provider(), "DPRUN"@)
    }

    /// Whether the options are complete: session type, player name, service
    /// provider and application are set, and a handler is there if the
    /// service provider needs one.
    pub open spec fn complete(self) -> bool {
        &&& self.session_type is Some
        &&& self.player_name is Some
        &&& self.service_provider is Some
        &&& self.application is Some
        &&& self.needs_handler() ==> self.service_provider_handler
    }

    /// Host a session, under the given GUID or under one that dprun makes up.
    pub fn host(self, session_id: Option<GUID>) -> (r: Self)
        ensures
            r == (DPRunOptionsBuilder { session_type: Some(SessionType::Host(session_id)), ..self }),
    {
        Self { session_type: Some(SessionType::Host(session_id)), ..self }
    }

    /// Join a session.
    pub fn join(self, session_id: GUID) -> (r: Self)
        ensures
            r == (DPRunOptionsBuilder { session_type: Some(SessionType::Join(session_id)), ..self }),
    {
        Self { session_type: Some(SessionType::Join(session_id)), ..self }
    }

    /// Set the in-game name of the local player.
    pub fn player_name(self, player_name: String) -> (r: Self)
        ensures
            r == (DPRunOptionsBuilder { player_name: Some(player_name), ..self }),
    {
        Self { player_name: Some(player_name), ..self }
    }

    /// Set the service provider to use.
    pub fn service_provider(self, service_provider: GUID) -> (r: Self)
        ensures
            r == (DPRunOptionsBuilder {
                service_provider: Some(DPGUIDOrNamed::GUID(service_provider)),
                ..self
            }),
    {
        Self { service_provider: Some(DPGUIDOrNamed::GUID(service_provider)), ..self }
    }

    /// Set the service provider to use, by name.
    pub fn named_service_provider(self, service_provider: &str) -> (r: Self)
        ensures
            r.service_provider matches Some(DPGUIDOrNamed::Named(name)) && name@
                == service_provider@,
            r == (DPRunOptionsBuilder { service_provider: r.service_provider, ..self }),
    {
        Self {
            service_provider: Some(DPGUIDOrNamed::Named(String::from_str(service_provider))),
            ..self
        }
    }

    /// Register a handler that relays the messages of the service provider.
    /// Where no service provider is set yet, this selects the one that dprun
    /// implements.
    pub fn service_provider_handler(self) -> (r: Self)
        ensures
            r.service_provider_handler,
            self.service_provider is Some ==> r.service_provider == self.service_provider,
            self.service_provider is None ==> (r.service_provider matches Some(
                DPGUIDOrNamed::Named(name),
            ) && name@ == "DPRUN"@),
            r == (DPRunOptionsBuilder {
                service_provider: r.service_provider,
                service_provider_handler: true,
                ..self
            }),
    {
        let mut next = self;
        if next.service_provider.is_none() {
            next = next.named_service_provider("DPRUN");
        }
        next.service_provider_handler = true;
        next
    }

    /// Set the application to start.
    pub fn application(self, application: GUID) -> (r: Self)
        ensures
            r == (DPRunOptionsBuilder { application: Some(application), ..self }),
    {
        Self { application: Some(application), ..self }
    }

    /// Set the name of the session.
    pub fn session_name(self, session_name: String) -> (r: Self)
        ensures
            r == (DPRunOptionsBuilder { session_name: Some(session_name), ..self }),
    {
        Self { session_name: Some(session_name), ..self }
    }

    /// Protect the session with a password.
    pub fn session_password(self, session_password: String) -> (r: Self)
        ensures
            r == (DPRunOptionsBuilder { session_password: Some(session_password), ..self }),
    {
        Self { session_password: Some(session_password), ..self }
    }

    /// Set the directory that dprun is in.
    pub fn cwd(self, cwd: String) -> (r: Self)
        ensures
            r == (DPRunOptionsBuilder { cwd: Some(cwd), ..self }),
    {
        Self { cwd: Some(cwd), ..self }
    }

    /// Add an address part whose data type is a GUID.
    pub fn address_part(self, data_type: GUID, value: DPAddressValue) -> (r: Self)
        ensures
            r.address@ == self.address@.push(
                DPAddressPart { data_type: DPGUIDOrNamed::GUID(data_type), value },
            ),
            r == (DPRunOptionsBuilder { address: r.address, ..self }),
    {
        let mut next = self;
        next.address.push(DPAddressPart { data_type: DPGUIDOrNamed::GUID(data_type), value });
        next
    }

    /// Add an address part whose data type is given by name.
    pub fn named_address_part(self, data_type: &str, value: DPAddressValue) -> (r: Self)
        ensures
            r.address@.len() == self.address@.len() + 1,
            r.address@.drop_last() == self.address@,
            r.address@.last().value == value,
            r.address@.last().data_type matches DPGUIDOrNamed::Named(name) && name@ == data_type@,
            r == (DPRunOptionsBuilder { address: r.address, ..self }),
    {
        let mut next = self;
        next.address.push(
            DPAddressPart { data_type: DPGUIDOrNamed::Named(String::from_str(data_type)), value },
        );
        assert(next.address@.drop_last() =~= self.address@);
        next
    }

    /// Whether the options are complete.
    pub fn is_complete(&self) -> (r: bool)
        ensures
            r == self.complete(),
    {
        let needs_handler = match &self.service_provider {
            Some(provider) => provider.is_named(guid_dprunsp(), "DPRUN"),
            None => false,
        };
        self.session_type.is_some() && self.player_name.is_some()
            && self.service_provider.is_some() && self.application.is_some() && (!needs_handler
            || self.service_provider_handler)
    }

    /// Turns complete options into the options of a session.
    pub fn finish(self) -> (r: DPRunOptions)
        requires
            self.complete(),
        ensures
            r == (DPRunOptions {
                session_type: self.session_type.unwrap(),
                player_name: self.player_name.unwrap(),
                service_provider: self.service_provider.unwrap(),
                service_provider_handler: self.service_provider_handler,
                application: self.application.unwrap(),
                address: self.address,
                session_name: self.session_name,
                session_password: self.session_password,
                cwd: self.cwd,
            }),
    {
        DPRunOptions {
            session_type: self.session_type.unwrap(),
            player_name: self.player_name.unwrap(),
            service_provider: self.service_provider.unwrap(),
            service_provider_handler: self.service_provider_handler,
            application: self.application.unwrap(),
            address: self.address,
            session_name: self.session_name,
            session_password: self.session_password,
            cwd: self.cwd,
        }
    }

    /// Turns the options into the options of a session, if they are complete.
    pub fn try_finish(self) -> (r: Option<DPRunOptions>)
        ensures
            r is Some == self.complete(),
            r matches Some(options) ==> options == (DPRunOptions {
                session_type: self.session_type.unwrap(),
                player_name: self.player_name.unwrap(),
                service_provider: self.service_provider.unwrap(),
                service_provider_handler: self.service_provider_handler,
                application: self.application.unwrap(),
                address: self.address,
                session_name: self.session_name,
                session_password: self.session_password,
                cwd: self.cwd,
            }),
    {
        if self.is_complete() {
            Some(self.finish())
        } else {
            None
        }
    }
}

/// A dprun game session that is ready to be started: the program, the words
/// handed to it, and what the caller needs to know to serve it.
#[derive(Debug, Clone, PartialEq, Eq)]
pub struct DPRun {
    /// The program to start: dprun itself on Windows, wine elsewhere.
    pub program: String,
    /// The words handed to the program, in order.
    pub args: Vec<String>,
    /// The directory to start it in, if one was set.
    pub cwd: Option<String>,
    /// The port for the host server, where a handler is registered and the
    /// address holds an internet port.
    pub host_server_port: Option<u16>,
    /// Whether a handler relays the messages of the service provider.
    pub service_provider: bool,
}

/// The texts of a list of words.
pub open spec fn words(list: Seq<String>) -> Seq<Seq<char>> {
    Seq::new(list.len(), |i: int| list[i]@)
}

/// The program to start.
pub open spec fn program_name(windows: bool) -> Seq<char> {
    if windows {
        "dprun.exe"@
    } else {
        "wine"@
    }
}

/// The words that come before the options: none on Windows, the name of dprun
/// for wine elsewhere.
pub open spec fn leading_args(windows: bool) -> Seq<Seq<char>> {
    if windows {
        Seq::empty()
    } else {
        seq!["dprun.exe"@]
    }
}

/// The words that say which session to host or join.
pub open spec fn session_args(session_type: SessionType) -> Seq<Seq<char>> {
    match session_type {
        SessionType::Host(Some(guid)) => seq!["--host"@, guid_text(guid)],
        SessionType::Host(None) => seq!["--host"@],
        SessionType::Join(guid) => seq!["--join"@, guid_text(guid)],
    }
}

/// The words for the first `n` address parts: `--address` and the part, for
/// each.
pub open spec fn address_args(address: Seq<DPAddressPart>, n: nat) -> Seq<Seq<char>>
    decreases n,
{
    if n == 0 {
        Seq::empty()
    } else {
        address_args(address, (n - 1) as nat) + seq!["--address"@, address[n - 1].text()]
    }
}

/// The words for an option that may be absent: the flag and the value, or
/// nothing.
pub open spec fn optional_args(flag: Seq<char>, value: Option<String>) -> Seq<Seq<char>> {
    match value {
        Some(text) => seq![flag, text@],
        None => Seq::empty(),
    }
}

/// The words that name the player, the service provider and the application,
/// after those for the program and the session.
pub open spec fn head_args(options: DPRunOptions, windows: bool) -> Seq<Seq<char>> {
    leading_args(windows) + session_args(options.session_type) + seq![
        "--player"@,
        options.player_name@,
    ] + seq!["--service-provider"@, options.service_provider.text()] + seq![
        "--application"@,
        guid_text(options.application),
    ]
}

/// The words handed to the program for a session, in order: dprun's own name
/// where wine is the program, the session, the player, the service provider,
/// the application, the address parts, and the session's name and password
/// where they are set.
pub open spec fn command_args(options: DPRunOptions, windows: bool) -> Seq<Seq<char>> {
    head_args(options, windows) + address_args(options.address@, options.address@.len())
        + optional_args("--session-name"@, options.session_name) + optional_args(
        "--session-password"@,
        options.session_password,
    )
}

/// The index of the first address part from `from` on that holds an internet
/// port.
pub open spec fn first_port_part(address: Seq<DPAddressPart>, from: nat) -> Option<nat>
    decreases address.len() - from,
{
    if from >= address.len() {
        None
    } else if address[from as int].is_port() {
        Some(from)
    } else {
        first_port_part(address, from + 1)
    }
}

/// The port that a number stands for: its lowest 16 bits.
pub open spec fn port_of(value: i32) -> u16 {
    (value as int % 0x1_0000) as u16
}

/// The port for the host server. Without a handler there is no host server.
/// With one, the first address part that holds an internet port decides: its
/// number, or the default port where its value is no number.
pub open spec fn server_port(options: DPRunOptions) -> Option<u16> {
    if !options.service_provider_handler {
        None
    } else {
        match first_port_part(options.address@, 0) {
            Some(i) => match options.address@[i as int].value {
                DPAddressValue::Number(val) => Some(port_of(val)),
                _ => Some(DEFAULT_HOST_SERVER_PORT),
            },
            None => None,
        }
    }
}

/// Words with a single space between them.
pub open spec fn joined(list: Seq<Seq<char>>, n: nat) -> Seq<char>
    decreases n,
{
    if n == 0 {
        Seq::empty()
    } else if n == 1 {
        list[0]
    } else {
        joined(list, (n - 1) as nat) + " "@ + list[n - 1]
    }
}

/// Each word in its quoted form.
pub open spec fn quoted_words(list: Seq<Seq<char>>) -> Seq<Seq<char>> {
    Seq::new(list.len(), |i: int| quoted(list[i]))
}

/// The quoted form of a text, as the debug format of a string writes it:
/// between double quotes, with escapes for what would not read as itself.
pub uninterp spec fn quoted(text: Seq<char>) -> Seq<char>;

/// Formats a text with `{:?}`, that is with std's `Debug` for `str`. Nothing
/// is proved of the result: it is taken to be `quoted` of the text, which
/// says no more than that equal texts are quoted equally.
#[verifier::external_body]
fn quote(text: &str) -> (r: String)
    ensures
        r@ == quoted(text@),
{
    format!("{:?}", text)
}

fn push_word(list: &mut Vec<String>, word: String)
    ensures
        words(final(list)@) == words(old(list)@) + seq![word@],
{
    list.push(word);
    assert(words(list@) =~= words(old(list)@) + seq![word@]);
}

fn push_pair(list: &mut Vec<String>, flag: &str, value: String)
    ensures
        words(final(list)@) == words(old(list)@) + seq![flag@, value@],
{
    push_word(list, String::from_str(flag));
    push_word(list, value);
    assert(words(list@) =~= words(old(list)@) + seq![flag@, value@]);
}

fn push_optional(list: &mut Vec<String>, flag: &str, value: &Option<String>)
    ensures
        words(final(list)@) == words(old(list)@) + optional_args(flag@, *value),
{
    match value {
        Some(text) => {
            push_pair(list, flag, text.clone());
        },
        None => {
            assert(words(list@) =~= words(old(list)@) + optional_args(flag@, *value));
        },
    }
}

/// Joins words with a single space between them.
pub fn join_words(list: &Vec<String>) -> (r: String)
    ensures
        r@ == joined(words(list@), list@.len()),
{
    let mut out = String::new();
    let mut i: usize = 0;
    while i < list.len()
        invariant
            i <= list@.len(),
            out@ == joined(words(list@), i as nat),
        decreases list@.len() - i,
    {
        if i > 0 {
            out.append(" ");
        }
        out.append(list[i].as_str());
        assert(out@ =~= joined(words(list@), (i + 1) as nat));
        i += 1;
    }
    out
}

/// The port that a number stands for.
pub fn port_from_number(value: i32) -> (r: u16)
    ensures
        r == port_of(value),
{
    let shifted: u64 = (value as i64 + 0x8000_0000) as u64;
    (shifted % 0x1_0000) as u16
}

/// Finds the port for the host server among the options.
pub fn host_server_port(options: &DPRunOptions) -> (r: Option<u16>)
    ensures
        r == server_port(*options),
{
    if !options.service_provider_handler {
        return None;
    }
    let mut i: usize = 0;
    while i < options.address.len()
        invariant
            options.service_provider_handler,
            i <= options.address@.len(),
            first_port_part(options.address@, 0) == first_port_part(options.address@, i as nat),
        decreases options.address@.len() - i,
    {
        let part = &options.address[i];
        if part.data_type.is_named(guid_inetport(), "INetPort") {
            return match &part.value {
                DPAddressValue::Number(val) => Some(port_from_number(*val)),
                _ => Some(DEFAULT_HOST_SERVER_PORT),
            };
        }
        i += 1;
    }
    None
}

impl DPRun {
    /// The command that will be executed, for debugging: the program and its
    /// words, each quoted, with spaces between them.
    pub fn command(&self) -> (r: String)
        ensures
            r@ == joined(
                quoted_words(seq![self.program@] + words(self.args@)),
                self.args@.len() + 1,
            ),
    {
        let mut list: Vec<String> = Vec::new();
        list.push(quote(self.program.as_str()));
        let mut i: usize = 0;
        while i < self.args.len()
            invariant
                i <= self.args@.len(),
                list@.len() == i + 1,
                forall|k: int|
                    0 <= k < list@.len() ==> (#[trigger] list@[k])@ == quoted_words(
                        seq![self.program@] + words(self.args@),
                    )[k],
            decreases self.args@.len() - i,
        {
            list.push(quote(self.args[i].as_str()));
            i += 1;
        }
        assert(words(list@) =~= quoted_words(seq![self.program@] + words(self.args@)));
        join_words(&list)
    }
}

fn session_words(list: &mut Vec<String>, session_type: SessionType)
    ensures
        words(final(list)@) == words(old(list)@) + session_args(session_type),
{
    match session_type {
        SessionType::Host(Some(guid)) => {
            push_pair(list, "--host", guid.to_string());
        },
        SessionType::Host(None) => {
            push_word(list, String::from_str("--host"));
        },
        SessionType::Join(guid) => {
            push_pair(list, "--join", guid.to_string());
        },
    }
}

fn head_words(options: &DPRunOptions, windows: bool) -> (list: Vec<String>)
    ensures
        words(list@) == head_args(*options, windows),
{
    let mut list: Vec<String> = Vec::new();
    if !windows {
        list.push(String::from_str("dprun.exe"));
    }
    assert(words(list@) =~= leading_args(windows));
    session_words(&mut list, options.session_type);
    push_pair(&mut list, "--player", options.player_name.clone());
    let mut provider = String::new();
    options.service_provider.push_text(&mut provider);
    assert(provider@ =~= options.service_provider.text());
    push_pair(&mut list, "--service-provider", provider);
    push_pair(&mut list, "--application", options.application.to_string());
    list
}

fn address_words(list: &mut Vec<String>, address: &Vec<DPAddressPart>)
    ensures
        words(final(list)@) == words(old(list)@) + address_args(address@, address@.len()),
{
    let mut i: usize = 0;
    assert(words(list@) =~= words(old(list)@) + address_args(address@, 0));
    while i < address.len()
        invariant
            i <= address@.len(),
            words(list@) == words(old(list)@) + address_args(address@, i as nat),
        decreases address@.len() - i,
    {
        push_pair(list, "--address", address[i].to_word());
        assert(words(list@) =~= words(old(list)@) + address_args(address@, (i + 1) as nat));
        i += 1;
    }
}

/// Prepares a session: works out the program, its words and the port of the
/// host server. `windows` says whether dprun runs natively; elsewhere it is
/// run through wine.
pub fn run(options: DPRunOptions, windows: bool) -> (r: DPRun)
    ensures
        r.program@ == program_name(windows),
        words(r.args@) == command_args(options, windows),
        r.cwd == options.cwd,
        r.host_server_port == server_port(options),
        r.service_provider == options.service_provider_handler,
{
    let program = if windows {
        String::from_str("dprun.exe")
    } else {
        String::from_str("wine")
    };
    let port = host_server_port(&options);
    let mut args = head_words(&options, windows);
    address_words(&mut args, &options.address);
    push_optional(&mut args, "--session-name", &options.session_name);
    push_optional(&mut args, "--session-password", &options.session_password);
    DPRun {
        program,
        args,
        cwd: options.cwd,
        host_server_port: port,
        service_provider: options.service_provider_handler,
    }
}

} // verus!
