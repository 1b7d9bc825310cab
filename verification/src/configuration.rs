//! Configuration resolution: environment-style key/value strings become a
//! validated `Configuration` or an `InvalidConfiguration` error.
//!
//! Every field follows the same rule: an absent or blank value falls back
//! to the compiled-in default, a non-blank value is trimmed and must parse
//! into the target type, and the first field that fails to parse aborts
//! resolution. The whole resolution is specified by the spec function
//! [`resolve`], of which the executable resolver is proved to be an exact
//! implementation.

use vstd::prelude::*;

use crate::text::{
    all_digits, digits_value, is_space, lemma_trim_of_padded, number_body, parse_u16, parse_u64,
    parsed_u16, parsed_u64, str_eq, trim_str, trimmed,
};

verus! {

/// The trimmed text of `value`, or nothing when only white space is left:
/// a blank input counts as absent, not as an error.
pub open spec fn sanitized(value: Seq<char>) -> Option<Seq<char>> {
    if trimmed(value).len() == 0 {
        None
    } else {
        Some(trimmed(value))
    }
}

/// Trims `value` and discards it when nothing but white space is left.
pub fn sanitize(value: &str) -> (r: Option<String>)
    ensures
        match r {
            Some(s) => sanitized(value@) == Some(s@),
            None => sanitized(value@) is None,
        },
{
    let t = trim_str(value);
    if t.is_empty() {
        None
    } else {
        Some(t.to_owned())
    }
}

pub const DEFAULT_PORT: u16 = 80;

pub const DEFAULT_TIMEOUT_MILLIS: u64 = 500;

pub const DEFAULT_STATUS_CODE: u16 = 200;

/// The closed set of well-formed HTTP request methods.
#[derive(Clone, Copy, Debug, PartialEq, Eq, Hash, Structural)]
pub enum Method {
    Get,
    Head,
    Post,
    Put,
    Delete,
    Connect,
    Options,
    Trace,
    Patch,
}

/// The method named by `s`, matched case-sensitively against the closed
/// set of HTTP methods.
pub open spec fn method_of(s: Seq<char>) -> Option<Method> {
    if s == "GET"@ {
        Some(Method::Get)
    } else if s == "HEAD"@ {
        Some(Method::Head)
    } else if s == "POST"@ {
        Some(Method::Post)
    } else if s == "PUT"@ {
        Some(Method::Put)
    } else if s == "DELETE"@ {
        Some(Method::Delete)
    } else if s == "CONNECT"@ {
        Some(Method::Connect)
    } else if s == "OPTIONS"@ {
        Some(Method::Options)
    } else if s == "TRACE"@ {
        Some(Method::Trace)
    } else if s == "PATCH"@ {
        Some(Method::Patch)
    } else {
        None
    }
}

/// The canonical token of a method, as it appears on the wire.
pub open spec fn method_token(m: Method) -> Seq<char> {
    match m {
        Method::Get => "GET"@,
        Method::Head => "HEAD"@,
        Method::Post => "POST"@,
        Method::Put => "PUT"@,
        Method::Delete => "DELETE"@,
        Method::Connect => "CONNECT"@,
        Method::Options => "OPTIONS"@,
        Method::Trace => "TRACE"@,
        Method::Patch => "PATCH"@,
    }
}

pub fn parse_method(s: &str) -> (r: Option<Method>)
    ensures
        r == method_of(s@),
{
    if str_eq(s, "GET") {
        Some(Method::Get)
    } else if str_eq(s, "HEAD") {
        Some(Method::Head)
    } else if str_eq(s, "POST") {
        Some(Method::Post)
    } else if str_eq(s, "PUT") {
        Some(Method::Put)
    } else if str_eq(s, "DELETE") {
        Some(Method::Delete)
    } else if str_eq(s, "CONNECT") {
        Some(Method::Connect)
    } else if str_eq(s, "OPTIONS") {
        Some(Method::Options)
    } else if str_eq(s, "TRACE") {
        Some(Method::Trace)
    } else if str_eq(s, "PATCH") {
        Some(Method::Patch)
    } else {
        None
    }
}

impl Method {
    /// The wire token of this method.
    pub fn token(&self) -> (r: &'static str)
        ensures
            r@ == method_token(*self),
    {
        match self {
            Method::Get => "GET",
            Method::Head => "HEAD",
            Method::Post => "POST",
            Method::Put => "PUT",
            Method::Delete => "DELETE",
            Method::Connect => "CONNECT",
            Method::Options => "OPTIONS",
            Method::Trace => "TRACE",
            Method::Patch => "PATCH",
        }
    }
}

impl Default for Method {
    fn default() -> (r: Method)
        ensures
            r == Method::Get,
    {
        Method::Get
    }
}

/// The protocol probed by a run: plain HTTP or the Redis-style key-value
/// wire protocol.
#[derive(Clone, Copy, Debug, PartialEq, Eq, Hash, Structural)]
pub enum Protocol {
    Http,
    Redis,
}

pub open spec fn protocol_of(s: Seq<char>) -> Option<Protocol> {
    if s == "http"@ {
        Some(Protocol::Http)
    } else if s == "redis"@ {
        Some(Protocol::Redis)
    } else {
        None
    }
}

pub fn parse_protocol(s: &str) -> (r: Option<Protocol>)
    ensures
        r == protocol_of(s@),
{
    if str_eq(s, "http") {
        Some(Protocol::Http)
    } else if str_eq(s, "redis") {
        Some(Protocol::Redis)
    } else {
        None
    }
}

impl Default for Protocol {
    fn default() -> (r: Protocol)
        ensures
            r == Protocol::Http,
    {
        Protocol::Http
    }
}

/// A TCP port; never zero.
#[derive(Clone, Copy, Debug, PartialEq, Eq, Hash)]
pub struct Port {
    value: u16,
}

impl View for Port {
    type V = u16;

    closed spec fn view(&self) -> u16 {
        self.value
    }
}

impl Port {
    #[verifier::type_invariant]
    spec fn type_inv(self) -> bool {
        self.value != 0
    }

    pub fn new(value: u16) -> (r: Option<Port>)
        ensures
            match r {
                Some(p) => p@ == value && value != 0,
                None => value == 0,
            },
    {
        if value == 0 {
            None
        } else {
            Some(Port { value })
        }
    }

    pub fn get(&self) -> (r: u16)
        ensures
            r == self@,
            r != 0,
    {
        proof {
            use_type_invariant(self);
        }
        self.value
    }
}

impl Default for Port {
    fn default() -> (r: Port)
        ensures
            r@ == DEFAULT_PORT,
    {
        Port { value: DEFAULT_PORT }
    }
}

/// The status code a healthy response must carry; never zero.
#[derive(Clone, Copy, Debug, PartialEq, Eq, Hash)]
pub struct StatusCode {
    value: u16,
}

impl View for StatusCode {
    type V = u16;

    closed spec fn view(&self) -> u16 {
        self.value
    }
}

impl StatusCode {
    #[verifier::type_invariant]
    spec fn type_inv(self) -> bool {
        self.value != 0
    }

    pub fn new(value: u16) -> (r: Option<StatusCode>)
        ensures
            match r {
                Some(s) => s@ == value && value != 0,
                None => value == 0,
            },
    {
        if value == 0 {
            None
        } else {
            Some(StatusCode { value })
        }
    }

    pub fn get(&self) -> (r: u16)
        ensures
            r == self@,
            r != 0,
    {
        proof {
            use_type_invariant(self);
        }
        self.value
    }
}

impl Default for StatusCode {
    fn default() -> (r: StatusCode)
        ensures
            r@ == DEFAULT_STATUS_CODE,
    {
        StatusCode { value: DEFAULT_STATUS_CODE }
    }
}

/// The request path; never blank.
#[derive(Debug, PartialEq, Eq, Hash)]
pub struct Path {
    value: String,
}

impl View for Path {
    type V = Seq<char>;

    closed spec fn view(&self) -> Seq<char> {
        self.value@
    }
}

impl Path {
    #[verifier::type_invariant]
    spec fn type_inv(self) -> bool {
        self.value@.len() != 0
    }

    pub fn new(value: String) -> (r: Option<Path>)
        ensures
            match r {
                Some(p) => p@ == value@ && value@.len() != 0,
                None => value@.len() == 0,
            },
    {
        if value.as_str().is_empty() {
            None
        } else {
            Some(Path { value })
        }
    }

    pub fn as_str(&self) -> (r: &str)
        ensures
            r@ == self@,
            r@.len() != 0,
    {
        proof {
            use_type_invariant(self);
        }
        self.value.as_str()
    }
}

impl Default for Path {
    fn default() -> (r: Path)
        ensures
            r@ == "/"@,
    {
        proof {
            reveal_strlit("/");
        }
        Path { value: "/".to_owned() }
    }
}

/// How long the probe waits for the round trip, in milliseconds.
#[derive(Clone, Copy, Debug, PartialEq, Eq, Hash)]
pub struct Timeout {
    millis: u64,
}

impl View for Timeout {
    type V = u64;

    closed spec fn view(&self) -> u64 {
        self.millis
    }
}

impl Timeout {
    pub fn from_millis(millis: u64) -> (r: Timeout)
        ensures
            r@ == millis,
    {
        Timeout { millis }
    }

    pub fn millis(&self) -> (r: u64)
        ensures
            r == self@,
    {
        self.millis
    }
}

impl Default for Timeout {
    fn default() -> (r: Timeout)
        ensures
            r@ == DEFAULT_TIMEOUT_MILLIS,
    {
        Timeout { millis: DEFAULT_TIMEOUT_MILLIS }
    }
}

/// The mathematical content of a `Configuration`.
pub struct ConfigModel {
    pub method: Method,
    pub port: u16,
    pub path: Seq<char>,
    pub timeout_millis: u64,
    pub status_code: u16,
    pub protocol: Protocol,
}

/// The validated configuration of one probe run.
#[derive(Debug, PartialEq)]
pub struct Configuration {
    pub method: Method,
    pub port: Port,
    pub path: Path,
    pub timeout: Timeout,
    pub status_code: StatusCode,
    pub protocol: Protocol,
}

impl View for Configuration {
    type V = ConfigModel;

    open spec fn view(&self) -> ConfigModel {
        ConfigModel {
            method: self.method,
            port: self.port@,
            path: self.path@,
            timeout_millis: self.timeout@,
            status_code: self.status_code@,
            protocol: self.protocol,
        }
    }
}

impl Default for Configuration {
    fn default() -> (r: Configuration)
        ensures
            r@.method == Method::Get,
            r@.port == DEFAULT_PORT,
            r@.path == "/"@,
            r@.timeout_millis == DEFAULT_TIMEOUT_MILLIS,
            r@.status_code == DEFAULT_STATUS_CODE,
            r@.protocol == Protocol::Http,
    {
        Configuration {
            method: Method::default(),
            port: Port::default(),
            path: Path::default(),
            timeout: Timeout::default(),
            status_code: StatusCode::default(),
            protocol: Protocol::default(),
        }
    }
}

/// The mathematical content of an `InvalidConfiguration`: which field was
/// rejected, with the trimmed text that failed to parse.
pub enum ConfigFault {
    Port(Seq<char>),
    Timeout(Seq<char>),
    StatusCode(Seq<char>),
    Method(Seq<char>),
    Protocol(Seq<char>),
}

/// The first configuration field that could not be parsed, carrying the
/// offending trimmed value.
#[derive(Clone, Debug, PartialEq, Eq)]
pub enum InvalidConfiguration {
    Port(String),
    Timeout(String),
    StatusCode(String),
    Method(String),
    Protocol(String),
}

impl View for InvalidConfiguration {
    type V = ConfigFault;

    open spec fn view(&self) -> ConfigFault {
        match self {
            InvalidConfiguration::Port(v) => ConfigFault::Port(v@),
            InvalidConfiguration::Timeout(v) => ConfigFault::Timeout(v@),
            InvalidConfiguration::StatusCode(v) => ConfigFault::StatusCode(v@),
            InvalidConfiguration::Method(v) => ConfigFault::Method(v@),
            InvalidConfiguration::Protocol(v) => ConfigFault::Protocol(v@),
        }
    }
}

/// The operator-facing description of a fault.
pub open spec fn fault_message(f: ConfigFault) -> Seq<char> {
    match f {
        ConfigFault::Port(v) => "invalid port '"@ + v + "'"@,
        ConfigFault::Timeout(v) => "invalid timeout '"@ + v + "'"@,
        ConfigFault::StatusCode(v) => "invalid status code '"@ + v + "'"@,
        ConfigFault::Method(v) => "invalid method '"@ + v + "'"@,
        ConfigFault::Protocol(v) => "invalid protocol '"@ + v + "'"@,
    }
}

impl InvalidConfiguration {
    /// Renders the fault for the operator, quoting the rejected value.
    pub fn message(&self) -> (r: String)
        ensures
            r@ == fault_message(self@),
    {
        let pair: (&str, &String) = match self {
            InvalidConfiguration::Port(v) => ("invalid port '", v),
            InvalidConfiguration::Timeout(v) => ("invalid timeout '", v),
            InvalidConfiguration::StatusCode(v) => ("invalid status code '", v),
            InvalidConfiguration::Method(v) => ("invalid method '", v),
            InvalidConfiguration::Protocol(v) => ("invalid protocol '", v),
        };
        let mut out = pair.0.to_owned();
        out.append(pair.1.as_str());
        out.append("'");
        proof {
            assert(out@ =~= fault_message(self@));
        }
        out
    }
}

/// The value bound to `key`, first binding wins.
pub open spec fn lookup_value(vars: Seq<(String, String)>, key: Seq<char>) -> Option<Seq<char>>
    decreases vars.len(),
{
    if vars.len() == 0 {
        None
    } else if vars[0].0@ == key {
        Some(vars[0].1@)
    } else {
        lookup_value(vars.drop_first(), key)
    }
}

fn lookup<'a>(vars: &'a Vec<(String, String)>, key: &str) -> (r: Option<&'a String>)
    ensures
        match r {
            Some(v) => lookup_value(vars@, key@) == Some(v@),
            None => lookup_value(vars@, key@) is None,
        },
{
    let n: usize = vars.len();
    let mut i: usize = 0;
    proof {
        assert(vars@.skip(0) =~= vars@);
    }
    while i < n
        invariant
            0 <= i <= n,
            n == vars@.len(),
            lookup_value(vars@, key@) == lookup_value(vars@.skip(i as int), key@),
        decreases n - i,
    {
        let pair = &vars[i];
        proof {
            assert(vars@.skip(i as int)[0] == vars@[i as int]);
            assert(vars@.skip(i as int).drop_first() =~= vars@.skip(i as int + 1));
        }
        if str_eq(pair.0.as_str(), key) {
            return Some(&pair.1);
        }
        i = i + 1;
    }
    None
}

/// What the method field resolves to: absent or blank falls back to GET, a
/// non-blank value must name an HTTP method.
pub open spec fn resolved_method(vars: Seq<(String, String)>) -> Result<Method, Seq<char>> {
    match lookup_value(vars, "DOCKTEUR_METHOD"@) {
        None => Ok(Method::Get),
        Some(v) => match sanitized(v) {
            None => Ok(Method::Get),
            Some(t) => match method_of(t) {
                Some(m) => Ok(m),
                None => Err(t),
            },
        },
    }
}

/// The raw port input: the prefixed key wins over the bare `PORT` key.
pub open spec fn port_lookup(vars: Seq<(String, String)>) -> Option<Seq<char>> {
    match lookup_value(vars, "DOCKTEUR_PORT"@) {
        Some(v) => Some(v),
        None => lookup_value(vars, "PORT"@),
    }
}

/// What the port field resolves to: a 16-bit decimal, zero rejected.
pub open spec fn resolved_port(vars: Seq<(String, String)>) -> Result<u16, Seq<char>> {
    match port_lookup(vars) {
        None => Ok(DEFAULT_PORT),
        Some(v) => match sanitized(v) {
            None => Ok(DEFAULT_PORT),
            Some(t) => match parsed_u16(t) {
                Some(p) => if p == 0 {
                    Err(t)
                } else {
                    Ok(p)
                },
                None => Err(t),
            },
        },
    }
}

/// What the path field resolves to: any non-blank value, trimmed; it
/// cannot fail.
pub open spec fn resolved_path(vars: Seq<(String, String)>) -> Seq<char> {
    match lookup_value(vars, "DOCKTEUR_PATH"@) {
        None => "/"@,
        Some(v) => match sanitized(v) {
            None => "/"@,
            Some(t) => t,
        },
    }
}

/// What the timeout field resolves to: a 64-bit decimal count of
/// milliseconds; zero is legal.
pub open spec fn resolved_timeout(vars: Seq<(String, String)>) -> Result<u64, Seq<char>> {
    match lookup_value(vars, "DOCKTEUR_TIMEOUT_MILLIS"@) {
        None => Ok(DEFAULT_TIMEOUT_MILLIS),
        Some(v) => match sanitized(v) {
            None => Ok(DEFAULT_TIMEOUT_MILLIS),
            Some(t) => match parsed_u64(t) {
                Some(ms) => Ok(ms),
                None => Err(t),
            },
        },
    }
}

/// What the status code field resolves to: a 16-bit decimal, zero
/// rejected.
pub open spec fn resolved_status_code(vars: Seq<(String, String)>) -> Result<u16, Seq<char>> {
    match lookup_value(vars, "DOCKTEUR_STATUS_CODE"@) {
        None => Ok(DEFAULT_STATUS_CODE),
        Some(v) => match sanitized(v) {
            None => Ok(DEFAULT_STATUS_CODE),
            Some(t) => match parsed_u16(t) {
                Some(c) => if c == 0 {
                    Err(t)
                } else {
                    Ok(c)
                },
                None => Err(t),
            },
        },
    }
}

/// What the protocol field resolves to: HTTP unless `redis` is asked for.
pub open spec fn resolved_protocol(vars: Seq<(String, String)>) -> Result<Protocol, Seq<char>> {
    match lookup_value(vars, "DOCKTEUR_PROTOCOL"@) {
        None => Ok(Protocol::Http),
        Some(v) => match sanitized(v) {
            None => Ok(Protocol::Http),
            Some(t) => match protocol_of(t) {
                Some(p) => Ok(p),
                None => Err(t),
            },
        },
    }
}

/// The whole resolution: fields are resolved independently, and the first
/// fault in the fixed order method, port, path, timeout, status code,
/// protocol aborts it.
pub open spec fn resolve(vars: Seq<(String, String)>) -> Result<ConfigModel, ConfigFault> {
    match resolved_method(vars) {
        Err(t) => Err(ConfigFault::Method(t)),
        Ok(method) => match resolved_port(vars) {
            Err(t) => Err(ConfigFault::Port(t)),
            Ok(port) => match resolved_timeout(vars) {
                Err(t) => Err(ConfigFault::Timeout(t)),
                Ok(timeout_millis) => match resolved_status_code(vars) {
                    Err(t) => Err(ConfigFault::StatusCode(t)),
                    Ok(status_code) => match resolved_protocol(vars) {
                        Err(t) => Err(ConfigFault::Protocol(t)),
                        Ok(protocol) => Ok(
                            ConfigModel {
                                method,
                                port,
                                path: resolved_path(vars),
                                timeout_millis,
                                status_code,
                                protocol,
                            },
                        ),
                    },
                },
            },
        },
    }
}

pub fn load_method_from(vars: &Vec<(String, String)>) -> (r: Result<Method, InvalidConfiguration>)
    ensures
        match r {
            Ok(m) => resolved_method(vars@) matches Ok(v) && m == v,
            Err(e) => resolved_method(vars@) matches Err(t) && e@ == ConfigFault::Method(t),
        },
{
    match lookup(vars, "DOCKTEUR_METHOD") {
        None => Ok(Method::default()),
        Some(value) => match sanitize(value.as_str()) {
            None => Ok(Method::default()),
            Some(t) => match parse_method(t.as_str()) {
                Some(m) => Ok(m),
                None => Err(InvalidConfiguration::Method(t)),
            },
        },
    }
}

pub fn load_port_from(vars: &Vec<(String, String)>) -> (r: Result<Port, InvalidConfiguration>)
    ensures
        match r {
            Ok(p) => resolved_port(vars@) matches Ok(v) && p@ == v,
            Err(e) => resolved_port(vars@) matches Err(t) && e@ == ConfigFault::Port(t),
        },
{
    let env_var = match lookup(vars, "DOCKTEUR_PORT") {
        Some(v) => Some(v),
        None => lookup(vars, "PORT"),
    };
    match env_var {
        None => Ok(Port::default()),
        Some(value) => match sanitize(value.as_str()) {
            None => Ok(Port::default()),
            Some(t) => match parse_u16(t.as_str()) {
                Some(number) => match Port::new(number) {
                    Some(p) => Ok(p),
                    None => Err(InvalidConfiguration::Port(t)),
                },
                None => Err(InvalidConfiguration::Port(t)),
            },
        },
    }
}

pub fn load_path_from(vars: &Vec<(String, String)>) -> (r: Result<Path, InvalidConfiguration>)
    ensures
        r matches Ok(p) && p@ == resolved_path(vars@),
{
    match lookup(vars, "DOCKTEUR_PATH") {
        None => Ok(Path::default()),
        Some(value) => match sanitize(value.as_str()) {
            None => Ok(Path::default()),
            Some(t) => match Path::new(t) {
                Some(p) => Ok(p),
                None => {
                    proof {
                        assert(false);
                    }
                    Ok(Path::default())
                },
            },
        },
    }
}

pub fn load_timeout_from(vars: &Vec<(String, String)>) -> (r: Result<
    Timeout,
    InvalidConfiguration,
>)
    ensures
        match r {
            Ok(t) => resolved_timeout(vars@) matches Ok(v) && t@ == v,
            Err(e) => resolved_timeout(vars@) matches Err(t) && e@ == ConfigFault::Timeout(t),
        },
{
    match lookup(vars, "DOCKTEUR_TIMEOUT_MILLIS") {
        None => Ok(Timeout::default()),
        Some(value) => match sanitize(value.as_str()) {
            None => Ok(Timeout::default()),
            Some(t) => match parse_u64(t.as_str()) {
                Some(ms) => Ok(Timeout::from_millis(ms)),
                None => Err(InvalidConfiguration::Timeout(t)),
            },
        },
    }
}

pub fn load_status_code_from(vars: &Vec<(String, String)>) -> (r: Result<
    StatusCode,
    InvalidConfiguration,
>)
    ensures
        match r {
            Ok(s) => resolved_status_code(vars@) matches Ok(v) && s@ == v,
            Err(e) => resolved_status_code(vars@) matches Err(t) && e@ == ConfigFault::StatusCode(
                t,
            ),
        },
{
    match lookup(vars, "DOCKTEUR_STATUS_CODE") {
        None => Ok(StatusCode::default()),
        Some(value) => match sanitize(value.as_str()) {
            None => Ok(StatusCode::default()),
            Some(t) => match parse_u16(t.as_str()) {
                Some(number) => match StatusCode::new(number) {
                    Some(s) => Ok(s),
                    None => Err(InvalidConfiguration::StatusCode(t)),
                },
                None => Err(InvalidConfiguration::StatusCode(t)),
            },
        },
    }
}

pub fn load_protocol_from(vars: &Vec<(String, String)>) -> (r: Result<
    Protocol,
    InvalidConfiguration,
>)
    ensures
        match r {
            Ok(p) => resolved_protocol(vars@) matches Ok(v) && p == v,
            Err(e) => resolved_protocol(vars@) matches Err(t) && e@ == ConfigFault::Protocol(t),
        },
{
    match lookup(vars, "DOCKTEUR_PROTOCOL") {
        None => Ok(Protocol::default()),
        Some(value) => match sanitize(value.as_str()) {
            None => Ok(Protocol::default()),
            Some(t) => match parse_protocol(t.as_str()) {
                Some(p) => Ok(p),
                None => Err(InvalidConfiguration::Protocol(t)),
            },
        },
    }
}

/// What [`load_configuration_from`] promises of its result: success gives
/// exactly the configuration that [`resolve`] describes, failure gives
/// exactly its fault.
pub open spec fn resolution_post(
    vars: Seq<(String, String)>,
    r: Result<Configuration, InvalidConfiguration>,
) -> bool {
    match r {
        Ok(c) => resolve(vars) matches Ok(m) && c@ == m,
        Err(e) => resolve(vars) matches Err(f) && e@ == f,
    }
}

/// Resolves the whole configuration from an environment-style mapping,
/// exactly as [`resolve`] describes it.
pub fn load_configuration_from(vars: Vec<(String, String)>) -> (r: Result<
    Configuration,
    InvalidConfiguration,
>)
    ensures
        resolution_post(vars@, r),
{
    let method = match load_method_from(&vars) {
        Ok(m) => m,
        Err(e) => return Err(e),
    };
    let port = match load_port_from(&vars) {
        Ok(p) => p,
        Err(e) => return Err(e),
    };
    let path = match load_path_from(&vars) {
        Ok(p) => p,
        Err(e) => return Err(e),
    };
    let timeout = match load_timeout_from(&vars) {
        Ok(t) => t,
        Err(e) => return Err(e),
    };
    let status_code = match load_status_code_from(&vars) {
        Ok(s) => s,
        Err(e) => return Err(e),
    };
    let protocol = match load_protocol_from(&vars) {
        Ok(p) => p,
        Err(e) => return Err(e),
    };
    Ok(Configuration { method, port, path, timeout, status_code, protocol })
}

/// An input that counts as missing: no binding at all, or one whose value
/// is blank.
pub open spec fn blank_or_absent(v: Option<Seq<char>>) -> bool {
    match v {
        None => true,
        Some(s) => sanitized(s) is None,
    }
}

/// Law: a field whose input is absent or blank resolves to its documented
/// default — GET, port 80, path `/`, 500 ms, status 200, HTTP.
pub proof fn lemma_blank_or_absent_input_resolves_to_default(vars: Seq<(String, String)>)
    ensures
        blank_or_absent(lookup_value(vars, "DOCKTEUR_METHOD"@)) ==> resolved_method(vars) == Ok::<
            Method,
            Seq<char>,
        >(Method::Get),
        blank_or_absent(port_lookup(vars)) ==> resolved_port(vars) == Ok::<u16, Seq<char>>(
            DEFAULT_PORT,
        ),
        blank_or_absent(lookup_value(vars, "DOCKTEUR_PATH"@)) ==> resolved_path(vars) == "/"@,
        blank_or_absent(lookup_value(vars, "DOCKTEUR_TIMEOUT_MILLIS"@)) ==> resolved_timeout(vars)
            == Ok::<u64, Seq<char>>(DEFAULT_TIMEOUT_MILLIS),
        blank_or_absent(lookup_value(vars, "DOCKTEUR_STATUS_CODE"@)) ==> resolved_status_code(vars)
            == Ok::<u16, Seq<char>>(DEFAULT_STATUS_CODE),
        blank_or_absent(lookup_value(vars, "DOCKTEUR_PROTOCOL"@)) ==> resolved_protocol(vars)
            == Ok::<Protocol, Seq<char>>(Protocol::Http),
{
}

/// Law: a white-space-padded input resolves exactly as its unpadded core:
/// the method and path fields take the core itself, the numeric fields its
/// parsed value.
pub proof fn lemma_padded_input_resolves_as_core(
    vars: Seq<(String, String)>,
    pad_left: Seq<char>,
    core: Seq<char>,
    pad_right: Seq<char>,
)
    requires
        forall|i: int| 0 <= i < pad_left.len() ==> is_space(pad_left[i]),
        forall|i: int| 0 <= i < pad_right.len() ==> is_space(pad_right[i]),
        core.len() > 0,
        !is_space(core[0]),
        !is_space(core[core.len() - 1]),
    ensures
        lookup_value(vars, "DOCKTEUR_METHOD"@) == Some(pad_left + core + pad_right)
            ==> resolved_method(vars) == (match method_of(core) {
            Some(m) => Ok::<Method, Seq<char>>(m),
            None => Err(core),
        }),
        port_lookup(vars) == Some(pad_left + core + pad_right) ==> resolved_port(vars) == (
        match parsed_u16(core) {
            Some(p) => if p == 0 {
                Err::<u16, Seq<char>>(core)
            } else {
                Ok(p)
            },
            None => Err(core),
        }),
        lookup_value(vars, "DOCKTEUR_PATH"@) == Some(pad_left + core + pad_right) ==> resolved_path(
            vars,
        ) == core,
        lookup_value(vars, "DOCKTEUR_TIMEOUT_MILLIS"@) == Some(pad_left + core + pad_right)
            ==> resolved_timeout(vars) == (match parsed_u64(core) {
            Some(ms) => Ok::<u64, Seq<char>>(ms),
            None => Err(core),
        }),
        lookup_value(vars, "DOCKTEUR_STATUS_CODE"@) == Some(pad_left + core + pad_right)
            ==> resolved_status_code(vars) == (match parsed_u16(core) {
            Some(c) => if c == 0 {
                Err::<u16, Seq<char>>(core)
            } else {
                Ok(c)
            },
            None => Err(core),
        }),
{
    lemma_trim_of_padded(pad_left, core, pad_right);
}

/// Law: a port input that trims to the literal `0` makes the whole
/// resolution fail, whatever the other fields hold.
pub proof fn lemma_zero_port_always_rejected(vars: Seq<(String, String)>)
    requires
        port_lookup(vars) matches Some(v) && sanitized(v) == Some("0"@),
    ensures
        resolve(vars) is Err,
{
    lemma_zero_literal_parses();
}

/// Law: a status code input that trims to the literal `0` makes the whole
/// resolution fail, whatever the other fields hold.
pub proof fn lemma_zero_status_code_always_rejected(vars: Seq<(String, String)>)
    requires
        lookup_value(vars, "DOCKTEUR_STATUS_CODE"@) matches Some(v) && sanitized(v) == Some("0"@),
    ensures
        resolve(vars) is Err,
{
    lemma_zero_literal_parses();
}

/// The literal `0` parses to the number zero: shared by the two rejection
/// laws above.
proof fn lemma_zero_literal_parses()
    ensures
        parsed_u16("0"@) == Some(0u16),
{
    reveal_strlit("0");
    let s = "0"@;
    assert(s.len() == 1);
    assert(s[0] == '0');
    assert(number_body(s) == s);
    assert(s.drop_last() =~= Seq::<char>::empty());
    assert(digits_value(s.drop_last()) == 0);
    assert(digits_value(s) == 0);
    assert(all_digits(s));
}

/// Law: when the prefixed port variable is present, the bare `PORT`
/// variable plays no part — two mappings that agree on the prefixed
/// variable resolve the port alike, whatever either binds `PORT` to.
pub proof fn lemma_prefixed_port_wins(
    vars1: Seq<(String, String)>,
    vars2: Seq<(String, String)>,
    v: Seq<char>,
)
    requires
        lookup_value(vars1, "DOCKTEUR_PORT"@) == Some(v),
        lookup_value(vars2, "DOCKTEUR_PORT"@) == Some(v),
    ensures
        resolved_port(vars1) == resolved_port(vars2),
{
}

/// Law: resolution is idempotent — any two results that
/// [`load_configuration_from`] may return for the same mapping are equal
/// configurations, or equal faults.
pub proof fn lemma_resolution_idempotent(
    vars: Seq<(String, String)>,
    r1: Result<Configuration, InvalidConfiguration>,
    r2: Result<Configuration, InvalidConfiguration>,
)
    requires
        resolution_post(vars, r1),
        resolution_post(vars, r2),
    ensures
        match (r1, r2) {
            (Ok(c1), Ok(c2)) => c1@ == c2@,
            (Err(e1), Err(e2)) => e1@ == e2@,
            _ => false,
        },
{
}

} // verus!
