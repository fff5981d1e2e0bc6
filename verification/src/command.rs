//! The external programs that the library relies on, as descriptions: which
//! program to run, with which arguments and which input. Running them is left
//! to the caller, who reports how the program ended; what that means is
//! decided here.
use vstd::prelude::*;
use vstd::utf8::{decode_utf8, valid_utf8};
use crate::error::WgError;

verus! {

/// A program to run: its name, its arguments, and what to write to its
/// standard input before closing it.
#[derive(Debug, Clone, PartialEq, Eq)]
pub struct Command {
    pub program: String,
    pub args: Vec<String>,
    pub input: Option<String>,
}

/// A `Command` as plain text.
pub struct CommandModel {
    pub program: Seq<char>,
    pub args: Seq<Seq<char>>,
    pub input: Option<Seq<char>>,
}

/// The texts of a list of strings.
pub open spec fn texts(args: Seq<String>) -> Seq<Seq<char>> {
    Seq::new(args.len(), |i: int| args[i]@)
}

impl View for Command {
    type V = CommandModel;

    open spec fn view(&self) -> CommandModel {
        CommandModel {
            program: self.program@,
            args: texts(self.args@),
            input: match self.input {
                Some(text) => Some(text@),
                None => None,
            },
        }
    }
}

/// `wg genkey`: prints a new private key.
pub open spec fn genkey() -> CommandModel {
    CommandModel { program: "wg"@, args: seq!["genkey"@], input: None }
}

/// `wg pubkey`, fed the private key: prints the public key that belongs to it.
pub open spec fn pubkey(privkey: Seq<char>) -> CommandModel {
    CommandModel { program: "wg"@, args: seq!["pubkey"@], input: Some(privkey) }
}

/// `wg addconf <iface> /dev/stdin`, fed `config`: adds the configuration to
/// the interface.
pub open spec fn addconf(iface: Seq<char>, config: Seq<char>) -> CommandModel {
    CommandModel {
        program: "wg"@,
        args: seq!["addconf"@, iface, "/dev/stdin"@],
        input: Some(config),
    }
}

/// `ip route add 10.13.37.0/24 dev <iface>`: routes the tunnel's network
/// through the interface.
pub open spec fn route_add(iface: Seq<char>) -> CommandModel {
    CommandModel {
        program: "ip"@,
        args: seq!["route"@, "add"@, "10.13.37.0/24"@, "dev"@, iface],
        input: None,
    }
}

/// `ip link del dev <iface>`: removes the interface.
pub open spec fn link_del(iface: Seq<char>) -> CommandModel {
    CommandModel { program: "ip"@, args: seq!["link"@, "del"@, "dev"@, iface], input: None }
}

/// The configuration block that gives an interface its private key and the
/// fixed listen port.
pub open spec fn interface_config(privkey: Seq<char>) -> Seq<char> {
    "[Interface]\nPrivateKey = "@ + privkey + "\nListenPort = 1337"@
}

/// Whether Unicode counts `c` as white space: the twenty-five characters
/// with the property `White_Space`. They are the controls from tab to carriage
/// return, the space, next line, the no-break space, the Ogham space mark, the
/// spaces from en quad to hair space, the line and paragraph separators, the
/// narrow no-break space, the medium mathematical space and the ideographic
/// space.
pub open spec fn white_space(c: char) -> bool {
    ||| 0x0009 <= c as u32 <= 0x000D
    ||| c as u32 == 0x0020
    ||| c as u32 == 0x0085
    ||| c as u32 == 0x00A0
    ||| c as u32 == 0x1680
    ||| 0x2000 <= c as u32 <= 0x200A
    ||| c as u32 == 0x2028
    ||| c as u32 == 0x2029
    ||| c as u32 == 0x202F
    ||| c as u32 == 0x205F
    ||| c as u32 == 0x3000
}

/// `char::is_whitespace` tells whether a character has the Unicode property
/// `White_Space`; the contract claims that these are the characters that
/// `white_space` lists.
pub assume_specification[ char::is_whitespace ](c: char) -> (r: bool)
    ensures
        r == white_space(c),
;

/// The text that `String::from_utf8_lossy` makes of `bytes`.
pub uninterp spec fn utf8_lossy(bytes: Seq<u8>) -> Seq<char>;

/// Decodes bytes as UTF-8 with `String::from_utf8_lossy`, which puts U+FFFD
/// in the place of each invalid sequence. The contract names the result, and
/// claims that valid UTF-8 decodes to the text it encodes.
#[verifier::external_body]
fn decode_lossy(bytes: &[u8]) -> (text: String)
    ensures
        text@ == utf8_lossy(bytes@),
        valid_utf8(bytes@) ==> text@ == decode_utf8(bytes@),
{
    String::from_utf8_lossy(bytes).into_owned()
}

/// The index of the first character at or after `i` that is not white space;
/// the length of `s` if there is none.
pub open spec fn skip_space(s: Seq<char>, i: int) -> int
    decreases s.len() - i,
{
    if 0 <= i < s.len() && white_space(s[i]) {
        skip_space(s, i + 1)
    } else {
        i
    }
}

/// The end of the last character before `j`, and not before `from`, that is
/// not white space; `from` if there is none.
pub open spec fn drop_space(s: Seq<char>, from: int, j: int) -> int
    decreases j,
{
    if 0 <= from < j <= s.len() && white_space(s[j - 1]) {
        drop_space(s, from, j - 1)
    } else {
        j
    }
}

/// `s` without the white space at its start and at its end.
pub open spec fn trimmed(s: Seq<char>) -> Seq<char> {
    s.subrange(skip_space(s, 0), drop_space(s, skip_space(s, 0), s.len() as int))
}

/// Skipping white space stops inside the text, has passed nothing but white
/// space, and stops at a character that is none.
pub proof fn lemma_skip_space(s: Seq<char>, i: int)
    requires
        0 <= i <= s.len(),
    ensures
        i <= skip_space(s, i) <= s.len(),
        forall|k: int| i <= k < skip_space(s, i) ==> white_space(#[trigger] s[k]),
        skip_space(s, i) < s.len() ==> !white_space(s[skip_space(s, i)]),
    decreases s.len() - i,
{
    if i < s.len() && white_space(s[i]) {
        lemma_skip_space(s, i + 1);
    }
}

/// Dropping white space from the end stops between `from` and the end, has
/// dropped nothing but white space, and stops behind a character that is none.
pub proof fn lemma_drop_space(s: Seq<char>, from: int, j: int)
    requires
        0 <= from <= j <= s.len(),
    ensures
        from <= drop_space(s, from, j) <= j,
        forall|k: int| drop_space(s, from, j) <= k < j ==> white_space(#[trigger] s[k]),
        drop_space(s, from, j) > from ==> !white_space(s[drop_space(s, from, j) - 1]),
    decreases j,
{
    if from < j && white_space(s[j - 1]) {
        lemma_drop_space(s, from, j - 1);
    }
}

/// A trimmed text neither starts nor ends with white space, and it is empty
/// exactly when the text it was made from holds nothing but white space.
pub proof fn lemma_trimmed_edges(s: Seq<char>)
    ensures
        trimmed(s).len() > 0 ==> !white_space(trimmed(s).first()) && !white_space(
            trimmed(s).last(),
        ),
        trimmed(s).len() == 0 <==> (forall|k: int| 0 <= k < s.len() ==> white_space(
            #[trigger] s[k],
        )),
{
    let a = skip_space(s, 0);
    lemma_skip_space(s, 0);
    lemma_drop_space(s, a, s.len() as int);
    let b = drop_space(s, a, s.len() as int);
    if a < s.len() {
        assert(b > a) by {
            if b == a {
                assert(white_space(s[a]));
            }
        }
        assert(trimmed(s).first() == s[a]);
        assert(trimmed(s).last() == s[b - 1]);
    }
}

/// Trimming takes away exactly the white space around a text: where `core`
/// is not empty and neither starts nor ends with white space, and `before` and
/// `behind` hold nothing else, trimming the three in a row gives `core`.
pub proof fn lemma_trimmed_core(before: Seq<char>, core: Seq<char>, behind: Seq<char>)
    requires
        forall|k: int| 0 <= k < before.len() ==> white_space(#[trigger] before[k]),
        forall|k: int| 0 <= k < behind.len() ==> white_space(#[trigger] behind[k]),
        core.len() > 0,
        !white_space(core.first()),
        !white_space(core.last()),
    ensures
        trimmed(before + core + behind) == core,
{
    let s = before + core + behind;
    let start = before.len() as int;
    let end = start + core.len();
    lemma_skip_space(s, 0);
    let a = skip_space(s, 0);
    assert(s[start] == core.first());
    assert(a == start) by {
        if a < start {
            assert(s[a] == before[a]);
        }
        if a > start {
            assert(white_space(s[start]));
        }
    }
    lemma_drop_space(s, a, s.len() as int);
    let b = drop_space(s, a, s.len() as int);
    assert(s[end - 1] == core.last());
    assert(b == end) by {
        if b > end {
            assert(s[b - 1] == behind[b - 1 - end]);
        }
        if b < end {
            assert(white_space(s[end - 1]));
        }
    }
    assert(s.subrange(a, b) =~= core);
}

/// Removes the white space at the start and at the end of `s`.
pub fn trim(s: &str) -> (r: String)
    ensures
        r@ == trimmed(s@),
{
    let n: usize = s.unicode_len();
    let mut i: usize = 0;
    loop
        invariant
            i <= n,
            n == s@.len(),
            skip_space(s@, i as int) == skip_space(s@, 0),
        ensures
            i <= n,
            i as int == skip_space(s@, 0),
        decreases n - i,
    {
        if i == n {
            break ;
        }
        let c = s.get_char(i);
        if !c.is_whitespace() {
            break ;
        }
        i = i + 1;
    }
    let mut j: usize = n;
    loop
        invariant
            i <= j <= n,
            n == s@.len(),
            drop_space(s@, i as int, j as int) == drop_space(s@, i as int, n as int),
        ensures
            i <= j <= n,
            j as int == drop_space(s@, i as int, n as int),
        decreases j,
    {
        if j == i {
            break ;
        }
        let c = s.get_char(j - 1);
        if !c.is_whitespace() {
            break ;
        }
        j = j - 1;
    }
    s.substring_char(i, j).to_owned()
}

/// A copy of a list of strings.
pub fn copy_texts(args: &Vec<String>) -> (out: Vec<String>)
    ensures
        texts(out@) == texts(args@),
{
    let mut out: Vec<String> = Vec::new();
    let mut i: usize = 0;
    while i < args.len()
        invariant
            i <= args@.len(),
            out@.len() == i,
            forall|k: int| 0 <= k < i ==> out@[k]@ == args@[k]@,
        decreases args@.len() - i,
    {
        out.push(args[i].clone());
        i = i + 1;
    }
    assert(texts(out@) =~= texts(args@));
    out
}

impl Command {
    /// `wg genkey`.
    pub fn genkey() -> (c: Command)
        ensures
            c@ == genkey(),
    {
        let mut args: Vec<String> = Vec::new();
        args.push(String::from_str("genkey"));
        let c = Command { program: String::from_str("wg"), args, input: None };
        assert(c@.args =~= genkey().args);
        c
    }

    /// `wg pubkey`, with the private key as its input.
    pub fn pubkey(privkey: &str) -> (c: Command)
        ensures
            c@ == pubkey(privkey@),
    {
        let mut args: Vec<String> = Vec::new();
        args.push(String::from_str("pubkey"));
        let c = Command {
            program: String::from_str("wg"),
            args,
            input: Some(String::from_str(privkey)),
        };
        assert(c@.args =~= pubkey(privkey@).args);
        c
    }

    /// `wg addconf <iface> /dev/stdin`, with the configuration as its input.
    pub fn addconf(iface: &str, config: &str) -> (c: Command)
        ensures
            c@ == addconf(iface@, config@),
    {
        let mut args: Vec<String> = Vec::new();
        args.push(String::from_str("addconf"));
        args.push(String::from_str(iface));
        args.push(String::from_str("/dev/stdin"));
        let c = Command {
            program: String::from_str("wg"),
            args,
            input: Some(String::from_str(config)),
        };
        assert(c@.args =~= addconf(iface@, config@).args);
        c
    }

    /// `ip route add 10.13.37.0/24 dev <iface>`.
    pub fn route_add(iface: &str) -> (c: Command)
        ensures
            c@ == route_add(iface@),
    {
        let mut args: Vec<String> = Vec::new();
        args.push(String::from_str("route"));
        args.push(String::from_str("add"));
        args.push(String::from_str("10.13.37.0/24"));
        args.push(String::from_str("dev"));
        args.push(String::from_str(iface));
        let c = Command { program: String::from_str("ip"), args, input: None };
        assert(c@.args =~= route_add(iface@).args);
        c
    }

    /// `ip link del dev <iface>`.
    pub fn link_del(iface: &str) -> (c: Command)
        ensures
            c@ == link_del(iface@),
    {
        let mut args: Vec<String> = Vec::new();
        args.push(String::from_str("link"));
        args.push(String::from_str("del"));
        args.push(String::from_str("dev"));
        args.push(String::from_str(iface));
        let c = Command { program: String::from_str("ip"), args, input: None };
        assert(c@.args =~= link_del(iface@).args);
        c
    }

    /// What a run of this command comes to. A run that did not end in success
    /// is a failure that names the program, its arguments and the exit code,
    /// and nothing of what it printed counts. After a successful run the
    /// result is what it printed: decoded as UTF-8, invalid sequences
    /// replaced, white space at both ends removed.
    pub fn outcome(&self, success: bool, exit: Option<i32>, stdout: &[u8]) -> (r: Result<
        String,
        WgError,
    >)
        ensures
            success ==> (r matches Ok(text) && text@ == trimmed(utf8_lossy(stdout@))),
            success && valid_utf8(stdout@) ==> (r matches Ok(text) && text@ == trimmed(
                decode_utf8(stdout@),
            )),
            !success ==> (r matches Err(e) && e@ == self@.failure(exit)),
    {
        if !success {
            return Err(self.failed(exit));
        }
        let text = decode_lossy(stdout);
        Ok(trim(text.as_str()))
    }

    /// The failure of this command with the given exit code.
    pub fn failed(&self, exit: Option<i32>) -> (e: WgError)
        ensures
            e@ == self@.failure(exit),
    {
        WgError::CommandFailed {
            program: self.program.clone(),
            args: copy_texts(&self.args),
            exit,
        }
    }
}

/// The text of the configuration block for a private key.
pub fn interface_config_text(privkey: &str) -> (text: String)
    ensures
        text@ == interface_config(privkey@),
{
    let mut text = String::from_str("[Interface]\nPrivateKey = ");
    text.append(privkey);
    text.append("\nListenPort = 1337");
    text
}

} // verus!
