//! Immutable launch configuration for a browser process.
//!
//! A [`LaunchConfig`] is built once, from one of two presets, and is never
//! mutated afterwards: the two override operations return a fresh value that
//! carries every other field over verbatim.

use vstd::prelude::*;
use vstd::string::*;

verus! {

/// An immutable description of how the browser process is to be launched.
///
/// The proxy endpoint and the user-data directory are held as plain strings;
/// the caller that finally launches the process converts them to whatever the
/// process boundary expects.
pub struct LaunchConfig {
    /// Run the browser without a visible window.
    pub headless: bool,
    /// Run the browser inside its sandbox.
    pub sandbox: bool,
    /// Open devtools automatically for every tab.
    pub devtools: bool,
    /// Enable the GPU.
    pub enable_gpu: bool,
    /// Enable browser-side logging.
    pub enable_logging: bool,
    /// Window width and height, if a fixed size is requested.
    pub window_size: Option<(u32, u32)>,
    /// How many seconds the browser may sit idle before it is torn down.
    pub idle_timeout_secs: u64,
    /// Extra command-line arguments, in order.
    pub args: Vec<String>,
    /// Proxy endpoint (`http://localhost:{port}`), if one is set.
    pub proxy_server: Option<String>,
    /// Directory for a persistent user profile, if one is set.
    pub user_data_dir: Option<String>,
}

/// The character standing for a single decimal digit.
pub open spec fn digit_char(d: nat) -> char {
    if d == 0 {
        '0'
    } else if d == 1 {
        '1'
    } else if d == 2 {
        '2'
    } else if d == 3 {
        '3'
    } else if d == 4 {
        '4'
    } else if d == 5 {
        '5'
    } else if d == 6 {
        '6'
    } else if d == 7 {
        '7'
    } else if d == 8 {
        '8'
    } else {
        '9'
    }
}

/// The decimal rendering of `n`, most significant digit first, no leading
/// zeros (except for `n == 0` itself).
pub open spec fn dec_str(n: nat) -> Seq<char>
    decreases n,
{
    if n < 10 {
        seq![digit_char(n)]
    } else {
        dec_str(n / 10) + seq![digit_char(n % 10)]
    }
}

/// The proxy endpoint string produced for a local port: `http://localhost:`
/// followed by the port in decimal.
pub open spec fn proxy_endpoint(port: nat) -> Seq<char> {
    "http://localhost:"@ + dec_str(port)
}

/// A one-character string slice for a decimal digit.
fn digit_to_str(d: usize) -> (r: &'static str)
    requires
        d < 10,
    ensures
        r@ == seq![digit_char(d as nat)],
{
    proof {
        reveal_strlit("0");
        reveal_strlit("1");
        reveal_strlit("2");
        reveal_strlit("3");
        reveal_strlit("4");
        reveal_strlit("5");
        reveal_strlit("6");
        reveal_strlit("7");
        reveal_strlit("8");
        reveal_strlit("9");
    }
    let r: &'static str = match d {
        0 => "0",
        1 => "1",
        2 => "2",
        3 => "3",
        4 => "4",
        5 => "5",
        6 => "6",
        7 => "7",
        8 => "8",
        _ => "9",
    };
    proof {
        assert(r@ =~= seq![digit_char(d as nat)]);
    }
    r
}

/// Renders `n` in decimal.
pub fn usize_to_string(n: usize) -> (s: String)
    ensures
        s@ == dec_str(n as nat),
    decreases n,
{
    if n < 10 {
        String::from_str(digit_to_str(n))
    } else {
        let mut s = usize_to_string(n / 10);
        s.append(digit_to_str(n % 10));
        proof {
            assert(s@ =~= dec_str(n as nat));
        }
        s
    }
}

/// Whether `s` is exactly the ordered stealth argument list: the flags that
/// switch off automation-detection signals, sandboxing, the GPU, popups,
/// notifications and geolocation prompts, plus a desktop user-agent override.
pub open spec fn is_stealth_args(s: Seq<String>) -> bool {
    &&& s.len() == 18
    &&& s[0]@ == "--disable-blink-features=AutomationControlled"@
    &&& s[1]@ == "--disable-automation"@
    &&& s[2]@ == "--no-first-run"@
    &&& s[3]@ == "--disable-web-security"@
    &&& s[4]@ == "--disable-dev-shm-usage"@
    &&& s[5]@ == "--disable-browser-side-navigation"@
    &&& s[6]@ == "--disable-features=site-per-process,TranslateUI,BlinkGenPropertyTrees"@
    &&& s[7]@ == "--disable-popup-blocking"@
    &&& s[8]@ == "--disable-infobars"@
    &&& s[9]@ == "--disable-notifications"@
    &&& s[10]@ == "--disable-geolocation"@
    &&& s[11]@ == "--enable-webgl"@
    &&& s[12]@ == "--hide-scrollbars"@
    &&& s[13]@ == "--mute-audio"@
    &&& s[14]@ == "--no-sandbox"@
    &&& s[15]@ == "--disable-gpu"@
    &&& s[16]@ == "--ignore-certificate-errors"@
    &&& s[17]@
        == "--user-agent=Mozilla/5.0 (Windows NT 10.0; Win64; x64) AppleWebKit/537.36 (KHTML, like Gecko) Chrome/98.0.4758.102 Safari/537.36"@
}

/// The stealth preset: a headless 1920x1080 window and the fixed argument
/// list of [`is_stealth_args`]. Every other field keeps its quiet default.
pub fn stealth_option() -> (r: LaunchConfig)
    ensures
        r.headless == true,
        r.sandbox == true,
        r.devtools == false,
        r.enable_gpu == false,
        r.enable_logging == false,
        r.window_size == Some((1920u32, 1080u32)),
        r.idle_timeout_secs == 30,
        is_stealth_args(r.args@),
        r.proxy_server is None,
        r.user_data_dir is None,
{
    let mut args: Vec<String> = Vec::new();
    args.push(String::from_str("--disable-blink-features=AutomationControlled"));
    args.push(String::from_str("--disable-automation"));
    args.push(String::from_str("--no-first-run"));
    args.push(String::from_str("--disable-web-security"));
    args.push(String::from_str("--disable-dev-shm-usage"));
    args.push(String::from_str("--disable-browser-side-navigation"));
    args.push(String::from_str("--disable-features=site-per-process,TranslateUI,BlinkGenPropertyTrees"));
    args.push(String::from_str("--disable-popup-blocking"));
    args.push(String::from_str("--disable-infobars"));
    args.push(String::from_str("--disable-notifications"));
    args.push(String::from_str("--disable-geolocation"));
    args.push(String::from_str("--enable-webgl"));
    args.push(String::from_str("--hide-scrollbars"));
    args.push(String::from_str("--mute-audio"));
    args.push(String::from_str("--no-sandbox"));
    args.push(String::from_str("--disable-gpu"));
    args.push(String::from_str("--ignore-certificate-errors"));
    args.push(String::from_str("--user-agent=Mozilla/5.0 (Windows NT 10.0; Win64; x64) AppleWebKit/537.36 (KHTML, like Gecko) Chrome/98.0.4758.102 Safari/537.36"));
    LaunchConfig {
        headless: true,
        sandbox: true,
        devtools: false,
        enable_gpu: false,
        enable_logging: false,
        window_size: Some((1920u32, 1080u32)),
        idle_timeout_secs: 30,
        args,
        proxy_server: None,
        user_data_dir: None,
    }
}

/// The plain preset: a visible, sandboxed 1920x1080 window with the GPU off
/// and a 60-second idle timeout, and no extra arguments.
pub fn default_option() -> (r: LaunchConfig)
    ensures
        r.headless == false,
        r.sandbox == true,
        r.devtools == false,
        r.enable_gpu == false,
        r.enable_logging == false,
        r.window_size == Some((1920u32, 1080u32)),
        r.idle_timeout_secs == 60,
        r.args@.len() == 0,
        r.proxy_server is None,
        r.user_data_dir is None,
{
    LaunchConfig {
        headless: false,
        sandbox: true,
        devtools: false,
        enable_gpu: false,
        enable_logging: false,
        window_size: Some((1920u32, 1080u32)),
        idle_timeout_secs: 60,
        args: Vec::new(),
        proxy_server: None,
        user_data_dir: None,
    }
}

/// Returns a copy of `options` whose proxy endpoint is
/// `http://localhost:{port}`; every other field is carried over verbatim.
pub fn with_proxy_port(options: LaunchConfig, port: usize) -> (r: LaunchConfig)
    requires
        1 <= port,
    ensures
        r.headless == options.headless,
        r.sandbox == options.sandbox,
        r.devtools == options.devtools,
        r.enable_gpu == options.enable_gpu,
        r.enable_logging == options.enable_logging,
        r.window_size == options.window_size,
        r.idle_timeout_secs == options.idle_timeout_secs,
        r.args == options.args,
        r.user_data_dir == options.user_data_dir,
        r.proxy_server matches Some(p) && p@ == proxy_endpoint(port as nat),
{
    let mut endpoint = String::from_str("http://localhost:");
    let digits = usize_to_string(port);
    endpoint.append(digits.as_str());
    LaunchConfig { proxy_server: Some(endpoint), ..options }
}

/// Returns a copy of `options` whose persistent profile directory is `path`;
/// every other field is carried over verbatim.
pub fn with_user_data_dir(options: LaunchConfig, path: &str) -> (r: LaunchConfig)
    ensures
        r.headless == options.headless,
        r.sandbox == options.sandbox,
        r.devtools == options.devtools,
        r.enable_gpu == options.enable_gpu,
        r.enable_logging == options.enable_logging,
        r.window_size == options.window_size,
        r.idle_timeout_secs == options.idle_timeout_secs,
        r.args == options.args,
        r.proxy_server == options.proxy_server,
        r.user_data_dir matches Some(d) && d@ == path@,
{
    LaunchConfig { user_data_dir: Some(String::from_str(path)), ..options }
}

} // verus!
