use vstd::prelude::*;

verus! {

/// The file whose presence marks a WSL2 instance.
pub const WSL_INTEROP_PATH: &'static str = "/proc/sys/fs/binfmt_misc/WSLInterop";

/// The address that asks the server to listen on every interface.
pub const ANY_HOST: &'static str = "0.0.0.0";

/// Relies on std::path::Path::exists: whether something is at `path` now.
/// What it returns depends on the machine.
#[verifier::external_body]
fn path_exists(path: &str) -> (r: bool) {
    std::path::Path::new(path).exists()
}

/// Whether this process runs under WSL2. The answer comes from the file
/// system and is not known in advance.
pub fn check_for_wsl2() -> (r: bool) {
    path_exists(WSL_INTEROP_PATH)
}

/// Whether two strings hold the same characters.
pub fn same_text(a: &str, b: &str) -> (r: bool)
    ensures
        r == (a@ == b@),
{
    let n = a.unicode_len();
    if n != b.unicode_len() {
        return false;
    }
    let mut i: usize = 0;
    while i < n
        invariant
            n == a@.len(),
            n == b@.len(),
            i <= n,
            forall|k: int| 0 <= k < i ==> a@[k] == b@[k],
        decreases n - i,
    {
        if a.get_char(i) != b.get_char(i) {
            return false;
        }
        i = i + 1;
    }
    assert(a@ =~= b@);
    true
}

/// The host to show in the address that is printed and opened: when the
/// server listens on every interface and the machine's own address is
/// known, that address; otherwise the host as given.
pub fn display_host(host: &str, local_ip: Option<String>) -> (r: String)
    ensures
        host@ == ANY_HOST@ && local_ip is Some ==> r@ == local_ip->Some_0@,
        !(host@ == ANY_HOST@ && local_ip is Some) ==> r@ == host@,
{
    if same_text(host, ANY_HOST) {
        match local_ip {
            Some(ip) => ip,
            None => String::from_str(host),
        }
    } else {
        String::from_str(host)
    }
}

/// The operating systems the launcher knows how to open a browser on.
#[derive(PartialEq, Eq, Structural, Clone, Copy, Debug)]
pub enum Platform {
    MacOs,
    Windows,
    Linux,
    Other,
}

/// A program to start, with its arguments.
pub struct LaunchCommand {
    pub program: String,
    pub args: Vec<String>,
}

pub open spec fn args_view(args: Seq<String>) -> Seq<Seq<char>> {
    args.map_values(|a: String| a@)
}

/// The program and arguments that open `link` in the default browser.
pub open spec fn launch_spec(platform: Platform, wsl2: bool, link: Seq<char>) -> Option<
    (Seq<char>, Seq<Seq<char>>),
> {
    match platform {
        Platform::MacOs => Some(("open"@, seq![link])),
        Platform::Windows => Some(("cmd"@, seq!["/C"@, "start"@, link])),
        Platform::Linux => if wsl2 {
            Some(("powershell.exe"@, seq!["-c"@, "start"@, link]))
        } else {
            Some(("xdg-open"@, seq![link]))
        },
        Platform::Other => None,
    }
}

pub open spec fn launch_view(c: Option<LaunchCommand>) -> Option<(Seq<char>, Seq<Seq<char>>)> {
    match c {
        Some(c) => Some((c.program@, args_view(c.args@))),
        None => None,
    }
}

fn command(program: &str, args: Vec<String>) -> (r: LaunchCommand)
    ensures
        r.program@ == program@,
        r.args@ == args@,
{
    LaunchCommand { program: String::from_str(program), args }
}

/// How to open `link` in a browser on `platform` (through Windows when
/// running under WSL2). `None` where no launcher is known.
pub fn browser_command(platform: Platform, wsl2: bool, link: &str) -> (r: Option<LaunchCommand>)
    ensures
        launch_view(r) == launch_spec(platform, wsl2, link@),
{
    let mut args: Vec<String> = Vec::new();
    match platform {
        Platform::MacOs => {
            args.push(String::from_str(link));
            let r = command("open", args);
            assert(args_view(r.args@) =~= seq![link@]);
            Some(r)
        },
        Platform::Windows => {
            args.push(String::from_str("/C"));
            args.push(String::from_str("start"));
            args.push(String::from_str(link));
            let r = command("cmd", args);
            assert(args_view(r.args@) =~= seq!["/C"@, "start"@, link@]);
            Some(r)
        },
        Platform::Linux => {
            if wsl2 {
                args.push(String::from_str("-c"));
                args.push(String::from_str("start"));
                args.push(String::from_str(link));
                let r = command("powershell.exe", args);
                assert(args_view(r.args@) =~= seq!["-c"@, "start"@, link@]);
                Some(r)
            } else {
                args.push(String::from_str(link));
                let r = command("xdg-open", args);
                assert(args_view(r.args@) =~= seq![link@]);
                Some(r)
            }
        },
        Platform::Other => None,
    }
}

} // verus!
