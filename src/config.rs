//! Server configuration and the rules that pick it from command-line
//! arguments and environment values.
use vstd::prelude::*;
use vstd::string::StrSliceExecFns;
use vstd::string::StringExecFns;
use crate::text::str_equal;

verus! {

#[derive(Debug)]
pub struct Config {
    pub server: ServerConfig,
    pub telemetry: TelemetryConfig,
}

#[derive(Debug)]
pub struct ServerConfig {
    pub name: String,
    pub transport: TransportType,
}

#[derive(Debug, Clone, Copy, PartialEq, Eq, Structural)]
pub enum TransportType {
    Stdio,
    HttpStreaming { port: u16 },
}

#[derive(Debug)]
pub struct TelemetryConfig {
    pub level: String,
    pub format: LogFormat,
    pub file: Option<String>,
}

#[derive(Debug, Clone, Copy, PartialEq, Eq, Structural)]
pub enum LogFormat {
    Pretty,
    Json,
}

#[derive(Debug)]
pub struct RedisConfig {
    pub url: String,
}

#[derive(Debug)]
pub struct DatabaseConfig {
    pub url: String,
    pub max_connections: u32,
}

pub open spec fn is_digit(c: char) -> bool {
    '0' <= c && c <= '9'
}

/// The value of a string of decimal digits.
pub open spec fn digits_value(s: Seq<char>) -> nat
    decreases s.len(),
{
    if s.len() == 0 {
        0
    } else {
        digits_value(s.drop_last()) * 10 + ((s.last() as u32) - ('0' as u32)) as nat
    }
}

/// A port string without its optional leading `+`.
pub open spec fn port_digits(s: Seq<char>) -> Seq<char> {
    if s.len() > 0 && s[0] == '+' {
        s.drop_first()
    } else {
        s
    }
}

/// The port number a string spells the way `str::parse::<u16>` reads it: an
/// optional `+`, then one or more decimal digits, with a value that fits in 16 bits.
pub open spec fn parsed_port(s: Seq<char>) -> Option<u16> {
    let d = port_digits(s);
    if d.len() > 0 && (forall|i: int| 0 <= i < d.len() ==> is_digit(#[trigger] d[i]))
        && digits_value(d) <= 65535 {
        Some(digits_value(d) as u16)
    } else {
        None
    }
}

proof fn lemma_digits_value_grows(d: Seq<char>, i: int, j: int)
    requires
        0 <= i <= j <= d.len(),
        forall|k: int| 0 <= k < d.len() ==> is_digit(#[trigger] d[k]),
    ensures
        digits_value(d.subrange(0, j)) >= digits_value(d.subrange(0, i)),
    decreases j - i,
{
    if i < j {
        lemma_digits_value_grows(d, i, j - 1);
        assert(d.subrange(0, j).drop_last() =~= d.subrange(0, j - 1));
    }
}

/// Reads a port number as `str::parse::<u16>` does.
pub fn parse_port(s: &str) -> (r: Option<u16>)
    ensures
        r == parsed_port(s@),
{
    let n = s.unicode_len();
    let start: usize = if n > 0 && s.get_char(0) == '+' { 1 } else { 0 };
    let ghost d = port_digits(s@);
    assert(d =~= s@.subrange(start as int, n as int));
    if start == n {
        return None;
    }
    let mut value: u32 = 0;
    let mut i: usize = start;
    while i < n
        invariant
            start <= i <= n,
            n == s@.len(),
            d == s@.subrange(start as int, n as int),
            d == port_digits(s@),
            forall|k: int| 0 <= k < i - start ==> is_digit(#[trigger] d[k]),
            value as nat == digits_value(d.subrange(0, i - start)),
            value <= 65535,
        decreases n - i,
    {
        let c = s.get_char(i);
        if !('0' <= c && c <= '9') {
            assert(!is_digit(d[i - start]));
            return None;
        }
        assert(d.subrange(0, i - start + 1).drop_last() =~= d.subrange(0, i - start));
        value = value * 10 + (c as u32 - '0' as u32);
        i = i + 1;
        if value > 65535 {
            proof {
                if forall|k: int| 0 <= k < d.len() ==> is_digit(#[trigger] d[k]) {
                    lemma_digits_value_grows(d, i - start, d.len() as int);
                    assert(d.subrange(0, d.len() as int) =~= d);
                }
            }
            return None;
        }
    }
    assert(d.subrange(0, n - start) =~= d);
    Some(value as u16)
}

/// The port given by the last `--http-port <n>` pair of the arguments whose
/// value is a port number.
pub open spec fn port_argument(args: Seq<String>) -> Option<u16>
    decreases args.len(),
{
    if args.len() < 2 {
        None
    } else {
        let n = args.len();
        if args[n - 2]@ == "--http-port"@ && parsed_port(args[n - 1]@) is Some {
            parsed_port(args[n - 1]@)
        } else {
            port_argument(args.drop_last())
        }
    }
}

/// Finds the port that the command-line arguments ask for.
pub fn port_from_args(args: &Vec<String>) -> (r: Option<u16>)
    ensures
        r == port_argument(args@),
{
    if args.len() < 2 {
        return None;
    }
    let mut found: Option<u16> = None;
    let mut j: usize = 1;
    while j < args.len()
        invariant
            1 <= j <= args@.len(),
            found == port_argument(args@.subrange(0, j as int)),
        decreases args@.len() - j,
    {
        let ghost prefix = args@.subrange(0, j + 1);
        assert(prefix.drop_last() =~= args@.subrange(0, j as int));
        assert(prefix[j - 1] == args@[j - 1]);
        assert(prefix[j as int] == args@[j as int]);
        if str_equal(args[j - 1].as_str(), "--http-port") {
            match parse_port(args[j].as_str()) {
                Some(port) => {
                    found = Some(port);
                },
                None => {},
            }
        }
        j = j + 1;
    }
    assert(args@.subrange(0, args@.len() as int) =~= args@);
    found
}

/// The transport: HTTP streaming on the port from the arguments, else on the
/// port in the `PORT` value if that is a port number, else standard I/O.
pub open spec fn spec_transport(arg_port: Option<u16>, port_env: Option<Seq<char>>) -> TransportType {
    if arg_port is Some {
        TransportType::HttpStreaming { port: arg_port->0 }
    } else if port_env is Some && parsed_port(port_env->0) is Some {
        TransportType::HttpStreaming { port: parsed_port(port_env->0)->0 }
    } else {
        TransportType::Stdio
    }
}

pub open spec fn opt_view(s: Option<String>) -> Option<Seq<char>> {
    match s {
        Some(x) => Some(x@),
        None => None,
    }
}

/// Chooses the transport from the argument's port and the `PORT` value.
pub fn choose_transport(arg_port: Option<u16>, port_env: Option<String>) -> (r: TransportType)
    ensures
        r == spec_transport(arg_port, opt_view(port_env)),
{
    match arg_port {
        Some(port) => TransportType::HttpStreaming { port },
        None => match port_env {
            Some(text) => match parse_port(text.as_str()) {
                Some(port) => TransportType::HttpStreaming { port },
                None => TransportType::Stdio,
            },
            None => TransportType::Stdio,
        },
    }
}

/// The log file used with standard I/O, which must keep its output clean.
pub open spec fn stdio_log_path(name: Seq<char>) -> Seq<char> {
    "/tmp/"@ + name + ".log"@
}

fn log_path(name: &str) -> (r: String)
    ensures
        r@ == stdio_log_path(name@),
{
    String::from_str("/tmp/").concat(name).concat(".log")
}

/// Completes a loaded configuration: with standard I/O and no log file, logs
/// go to the file for `name`.
pub fn with_stdio_log_file(config: Config, name: &str) -> (r: Config)
    ensures
        r.server == config.server,
        r.telemetry.level == config.telemetry.level,
        r.telemetry.format == config.telemetry.format,
        config.server.transport == TransportType::Stdio && config.telemetry.file is None ==> (
        r.telemetry.file matches Some(f) && f@ == stdio_log_path(name@)),
        !(config.server.transport == TransportType::Stdio && config.telemetry.file is None)
            ==> r.telemetry.file == config.telemetry.file,
{
    let mut config = config;
    if config.server.transport == TransportType::Stdio && config.telemetry.file.is_none() {
        config.telemetry.file = Some(log_path(name));
    }
    config
}

/// The configuration without a file: the transport as chosen, the log level
/// from its value (`info` by default), JSON logs only when asked for by
/// `json`, and a log file only with standard I/O.
pub fn default_config(name: String, transport: TransportType, level: Option<String>, format: Option<String>) -> (r: Config)
    ensures
        r.server.name@ == name@,
        r.server.transport == transport,
        r.telemetry.level@ == (if level is Some { level->0@ } else { "info"@ }),
        r.telemetry.format == (if format is Some && format->0@ == "json"@ {
            LogFormat::Json
        } else {
            LogFormat::Pretty
        }),
        transport == TransportType::Stdio ==> (r.telemetry.file matches Some(f) && f@ == stdio_log_path(name@)),
        transport != TransportType::Stdio ==> r.telemetry.file is None,
{
    let file = if transport == TransportType::Stdio { Some(log_path(name.as_str())) } else { None };
    let level = match level {
        Some(l) => l,
        None => String::from_str("info"),
    };
    let format = match format {
        Some(f) => if str_equal(f.as_str(), "json") { LogFormat::Json } else { LogFormat::Pretty },
        None => LogFormat::Pretty,
    };
    Config {
        server: ServerConfig { name, transport },
        telemetry: TelemetryConfig { level, format, file },
    }
}

} // verus!
