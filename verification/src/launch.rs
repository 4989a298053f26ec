//! Launching the containerized application, as data: an explicit
//! configuration rendered into argument lists for the container runtime
//! (never substituted into a shell string), the install command lists per
//! operating system, and the check whether an image listing already names
//! the wanted image.

use vstd::prelude::*;
use vstd::string::{StrSliceExecFns, StringExecFns};
use crate::escape::hex_digit_lower;

verus! {

/// The decimal digits of `n`, most significant first.
pub open spec fn decimal(n: nat) -> Seq<char>
    decreases n,
{
    if n < 10 {
        seq![hex_digit_lower(n)]
    } else {
        decimal(n / 10) + seq![hex_digit_lower(n % 10)]
    }
}

fn digit_str(d: u64) -> (r: &'static str)
    requires
        d < 10,
    ensures
        r@ == seq![hex_digit_lower(d as nat)],
{
    proof {
        reveal_strlit("0");
        reveal_strlit("1");
        reveal_strlit("2");
        reveal_strlit("3");
        reveal_strlit("4");
        reveal_strlit("5");
        reveal_strlit("6");
        reveal_strlit("7");
        reveal_strlit("8");
        reveal_strlit("9");
        assert("0"@ =~= seq![hex_digit_lower(0)]);
        assert("1"@ =~= seq![hex_digit_lower(1)]);
        assert("2"@ =~= seq![hex_digit_lower(2)]);
        assert("3"@ =~= seq![hex_digit_lower(3)]);
        assert("4"@ =~= seq![hex_digit_lower(4)]);
        assert("5"@ =~= seq![hex_digit_lower(5)]);
        assert("6"@ =~= seq![hex_digit_lower(6)]);
        assert("7"@ =~= seq![hex_digit_lower(7)]);
        assert("8"@ =~= seq![hex_digit_lower(8)]);
        assert("9"@ =~= seq![hex_digit_lower(9)]);
    }
    if d == 0 {
        "0"
    } else if d == 1 {
        "1"
    } else if d == 2 {
        "2"
    } else if d == 3 {
        "3"
    } else if d == 4 {
        "4"
    } else if d == 5 {
        "5"
    } else if d == 6 {
        "6"
    } else if d == 7 {
        "7"
    } else if d == 8 {
        "8"
    } else {
        "9"
    }
}

fn push_decimal(n: u64, out: &mut String)
    ensures
        final(out)@ == old(out)@ + decimal(n as nat),
    decreases n,
{
    if n >= 10 {
        push_decimal(n / 10, out);
        out.append(digit_str(n % 10));
        proof {
            assert(out@ =~= old(out)@ + decimal(n as nat));
        }
    } else {
        out.append(digit_str(n));
        proof {
            assert(out@ =~= old(out)@ + decimal(n as nat));
        }
    }
}

/// Renders `n` in decimal.
pub fn u64_string(n: u64) -> (r: String)
    ensures
        r@ == decimal(n as nat),
{
    let mut s = String::new();
    push_decimal(n, &mut s);
    proof {
        assert(s@ =~= decimal(n as nat));
    }
    s
}

/// The first position at or after `i` holding a line feed, or the length of
/// `s` when none follows.
pub open spec fn find_nl_from(s: Seq<char>, i: int) -> int
    decreases s.len() - i when 0 <= i
{
    if i >= s.len() {
        s.len() as int
    } else if s[i] == '\n' {
        i
    } else {
        find_nl_from(s, i + 1)
    }
}

proof fn lemma_find_nl_ge(s: Seq<char>, i: int)
    requires
        0 <= i,
    ensures
        i <= s.len() ==> i <= find_nl_from(s, i) <= s.len(),
    decreases s.len() - i,
{
    if i < s.len() && s[i] != '\n' {
        lemma_find_nl_ge(s, i + 1);
    }
}

proof fn lemma_find_nl_at(s: Seq<char>, i: int, k: int)
    requires
        0 <= i <= k <= s.len(),
        forall|t: int| i <= t < k ==> s[t] != '\n',
        k == s.len() || s[k] == '\n',
    ensures
        find_nl_from(s, i) == k,
    decreases k - i,
{
    if i < k {
        lemma_find_nl_at(s, i + 1, k);
    }
}

/// `t` without one trailing carriage return.
pub open spec fn strip_cr(t: Seq<char>) -> Seq<char> {
    if t.len() > 0 && t[t.len() - 1] == '\r' {
        t.drop_last()
    } else {
        t
    }
}

#[via_fn]
proof fn has_line_from_decreases(s: Seq<char>, l: Seq<char>, i: int) {
    lemma_find_nl_ge(s, i);
}

/// Whether some line of `s` at or after position `i` reads exactly `l`.
/// Lines end at a line feed or at the end of the text; one carriage return
/// before the line feed does not count.
pub open spec fn has_line_from(s: Seq<char>, l: Seq<char>, i: int) -> bool
    decreases s.len() - i when 0 <= i via has_line_from_decreases
{
    if i >= s.len() {
        false
    } else {
        let e = find_nl_from(s, i);
        strip_cr(s.subrange(i, e)) == l || (e < s.len() && has_line_from(s, l, e + 1))
    }
}

/// Whether some line of `s` reads exactly `l`.
pub open spec fn contains_line(s: Seq<char>, l: Seq<char>) -> bool {
    has_line_from(s, l, 0)
}

/// Whether two pieces of text hold the same characters.
pub fn str_eq(a: &str, b: &str) -> (r: bool)
    ensures
        r == (a@ == b@),
{
    let sa = a.to_owned();
    let sb = b.to_owned();
    sa == sb
}

/// Whether the image listing already names the wanted image: some line of
/// `listing` reads exactly `image`.
pub fn image_listed(listing: &str, image: &str) -> (r: bool)
    ensures
        r == contains_line(listing@, image@),
{
    let len = listing.unicode_len();
    let mut i: usize = 0;
    loop
        invariant
            len == listing@.len(),
            i <= len,
            contains_line(listing@, image@) == has_line_from(listing@, image@, i as int),
        decreases len - i,
    {
        if i >= len {
            return false;
        }
        let mut k: usize = i;
        loop
            invariant
                len == listing@.len(),
                i <= k <= len,
                forall|t: int| i <= t < k ==> listing@[t] != '\n',
            ensures
                i <= k <= len,
                forall|t: int| i <= t < k ==> listing@[t] != '\n',
                k == len || listing@[k as int] == '\n',
            decreases len - k,
        {
            if k == len {
                break;
            }
            if listing.get_char(k) == '\n' {
                break;
            }
            k = k + 1;
        }
        proof {
            lemma_find_nl_at(listing@, i as int, k as int);
        }
        let e = if k > i && listing.get_char(k - 1) == '\r' {
            k - 1
        } else {
            k
        };
        let line = listing.substring_char(i, e);
        proof {
            let sub = listing@.subrange(i as int, k as int);
            assert(sub.len() == k - i);
            if k > i && listing@[k - 1] == '\r' {
                assert(sub[sub.len() - 1] == listing@[k - 1]);
                assert(line@ =~= strip_cr(sub));
            } else {
                if k > i {
                    assert(sub[sub.len() - 1] == listing@[k - 1]);
                }
                assert(line@ =~= strip_cr(sub));
            }
        }
        if str_eq(line, image) {
            return true;
        }
        if k == len {
            return false;
        }
        i = k + 1;
    }
}

/// The commands that install the container runtime on a Linux system.
pub open spec fn linux_install_commands() -> Seq<Seq<char>> {
    seq![
        "sudo apt-get update"@,
        "sudo apt-get install -y apt-transport-https ca-certificates curl software-properties-common"@,
        "curl -fsSL https://download.docker.com/linux/ubuntu/gpg | sudo apt-key add -"@,
        "sudo add-apt-repository 'deb [arch=amd64] https://download.docker.com/linux/ubuntu focal stable'"@,
        "sudo apt-get update"@,
        "sudo apt-get install -y docker-ce docker-ce-cli containerd.io"@,
    ]
}

/// The commands that install the container runtime on a macOS system.
pub open spec fn macos_install_commands() -> Seq<Seq<char>> {
    seq![
        "/bin/bash -c \"$(curl -fsSL https://raw.githubusercontent.com/Homebrew/install/HEAD/install.sh)\""@,
        "brew install --cask docker"@,
    ]
}

/// The commands that install the container runtime on a Windows system.
pub open spec fn windows_install_commands() -> Seq<Seq<char>> {
    seq!["choco install docker-desktop"@]
}

/// The commands that install the container runtime on the named operating
/// system, in order, or the unsupported-system error text.
pub fn install_commands(os: &str) -> (r: Result<Vec<&'static str>, String>)
    ensures
        os@ == "linux"@ ==> (r matches Ok(v) && v.deep_view() == linux_install_commands()),
        os@ == "macos"@ ==> (r matches Ok(v) && v.deep_view() == macos_install_commands()),
        os@ == "windows"@ ==> (r matches Ok(v) && v.deep_view() == windows_install_commands()),
        !(os@ == "linux"@ || os@ == "macos"@ || os@ == "windows"@) ==> (r matches Err(m) && m@
            == "Unsupported OS: "@ + os@),
{
    proof {
        reveal_strlit("linux");
        reveal_strlit("macos");
        reveal_strlit("windows");
        assert("linux"@ != "macos"@) by {
            assert("linux"@[0] == 'l');
            assert("macos"@[0] == 'm');
        }
        assert("linux"@ != "windows"@) by {
            assert("linux"@.len() == 5);
            assert("windows"@.len() == 7);
        }
        assert("macos"@ != "windows"@) by {
            assert("macos"@.len() == 5);
            assert("windows"@.len() == 7);
        }
    }
    if str_eq(os, "linux") {
        let mut v: Vec<&'static str> = Vec::new();
        v.push("sudo apt-get update");
        v.push(
            "sudo apt-get install -y apt-transport-https ca-certificates curl software-properties-common",
        );
        v.push("curl -fsSL https://download.docker.com/linux/ubuntu/gpg | sudo apt-key add -");
        v.push(
            "sudo add-apt-repository 'deb [arch=amd64] https://download.docker.com/linux/ubuntu focal stable'",
        );
        v.push("sudo apt-get update");
        v.push("sudo apt-get install -y docker-ce docker-ce-cli containerd.io");
        proof {
            assert(v.deep_view() =~= linux_install_commands());
        }
        Ok(v)
    } else if str_eq(os, "macos") {
        let mut v: Vec<&'static str> = Vec::new();
        v.push(
            "/bin/bash -c \"$(curl -fsSL https://raw.githubusercontent.com/Homebrew/install/HEAD/install.sh)\"",
        );
        v.push("brew install --cask docker");
        proof {
            assert(v.deep_view() =~= macos_install_commands());
        }
        Ok(v)
    } else if str_eq(os, "windows") {
        let mut v: Vec<&'static str> = Vec::new();
        v.push("choco install docker-desktop");
        proof {
            assert(v.deep_view() =~= windows_install_commands());
        }
        Ok(v)
    } else {
        let mut m = String::from_str("Unsupported OS: ");
        m.append(os);
        Err(m)
    }
}

/// Explicit configuration for launching the containerized application:
/// rendered into argument lists, never substituted into a shell string.
pub struct LaunchConfig {
    /// The runtime image that is pulled first and named in the environment.
    pub runtime_image: String,
    /// The application image that is run.
    pub app_image: String,
    /// The host directory mounted for persisted state.
    pub state_dir: String,
    /// The published port; the application listens on the same number.
    pub port: u16,
    /// The container name.
    pub container_name: String,
}

/// The arguments of the pull command for the runtime image.
pub open spec fn pull_args_spec(c: LaunchConfig) -> Seq<Seq<char>> {
    seq!["pull"@, c.runtime_image@]
}

/// The arguments of the run command: detached, removed on exit, always
/// pulled, the runtime image and event logging in the environment, the
/// runtime socket and the state directory mounted, the port published, the
/// gateway host added, the container named, running the application image.
pub open spec fn run_args_spec(c: LaunchConfig) -> Seq<Seq<char>> {
    seq![
        "run"@,
        "-d"@,
        "--rm"@,
        "--pull=always"@,
        "-e"@,
        "SANDBOX_RUNTIME_CONTAINER_IMAGE="@ + c.runtime_image@,
        "-e"@,
        "LOG_ALL_EVENTS=true"@,
        "-v"@,
        "/var/run/docker.sock:/var/run/docker.sock"@,
        "-v"@,
        c.state_dir@ + ":/home/openhands/.openhands"@,
        "-p"@,
        decimal(c.port as nat) + ":"@ + decimal(c.port as nat),
        "--add-host"@,
        "host.docker.internal:host-gateway"@,
        "--name"@,
        c.container_name@,
        c.app_image@,
    ]
}

impl LaunchConfig {
    /// The argument list that pulls the runtime image.
    pub fn pull_args(&self) -> (r: Vec<String>)
        ensures
            r.deep_view() == pull_args_spec(*self),
    {
        let mut v: Vec<String> = Vec::new();
        v.push(String::from_str("pull"));
        v.push(self.runtime_image.clone());
        proof {
            assert(v.deep_view() =~~= pull_args_spec(*self));
        }
        v
    }

    /// The argument list that runs the application container.
    pub fn run_args(&self) -> (r: Vec<String>)
        ensures
            r.deep_view() == run_args_spec(*self),
    {
        let mut v: Vec<String> = Vec::new();
        v.push(String::from_str("run"));
        v.push(String::from_str("-d"));
        v.push(String::from_str("--rm"));
        v.push(String::from_str("--pull=always"));
        v.push(String::from_str("-e"));
        let mut env_image = String::from_str("SANDBOX_RUNTIME_CONTAINER_IMAGE=");
        env_image.append(self.runtime_image.as_str());
        v.push(env_image);
        v.push(String::from_str("-e"));
        v.push(String::from_str("LOG_ALL_EVENTS=true"));
        v.push(String::from_str("-v"));
        v.push(String::from_str("/var/run/docker.sock:/var/run/docker.sock"));
        v.push(String::from_str("-v"));
        let mut state_mount = self.state_dir.clone();
        state_mount.append(":/home/openhands/.openhands");
        v.push(state_mount);
        v.push(String::from_str("-p"));
        let mut ports = u64_string(self.port as u64);
        ports.append(":");
        let digits = u64_string(self.port as u64);
        ports.append(digits.as_str());
        v.push(ports);
        v.push(String::from_str("--add-host"));
        v.push(String::from_str("host.docker.internal:host-gateway"));
        v.push(String::from_str("--name"));
        v.push(self.container_name.clone());
        v.push(self.app_image.clone());
        proof {
            assert(v.deep_view() =~~= run_args_spec(*self));
        }
        v
    }
}

} // verus!
