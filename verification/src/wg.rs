//! The interface handle and what can be done with it. Every operation is
//! returned as the first step of a session; nothing is sent or run here.
use vstd::prelude::*;
use vstd::utf8::encode_utf8;
use crate::address::{address_of, parse_address, Cidr};
use crate::command::{
    genkey, interface_config, interface_config_text, pubkey, trimmed, utf8_lossy, Command,
    CommandModel,
};
use crate::error::{ErrorModel, WgError};
use crate::link::MAX_NAME_LEN;
use crate::session::{Goal, Session, SessionModel, Step};

verus! {

/// A WireGuard interface, known by its name.
#[derive(Debug, Clone)]
pub struct Wg {
    pub iface: String,
}

/// The two keys of a tunnel endpoint, as the key tool prints them.
#[derive(Debug)]
pub struct Keypair {
    pub privkey: String,
    pub pubkey: String,
}

/// A `Keypair` as plain text.
pub struct KeypairModel {
    pub privkey: Seq<char>,
    pub pubkey: Seq<char>,
}

impl View for Keypair {
    type V = KeypairModel;

    open spec fn view(&self) -> KeypairModel {
        KeypairModel { privkey: self.privkey@, pubkey: self.pubkey@ }
    }
}

/// The generation of a key pair under way: the private key, once the key tool
/// has printed it.
#[derive(Debug)]
pub struct Keygen {
    pub privkey: Option<String>,
}

/// A `Keygen` as plain text.
pub struct KeygenModel {
    pub privkey: Option<Seq<char>>,
}

impl View for Keygen {
    type V = KeygenModel;

    open spec fn view(&self) -> KeygenModel {
        KeygenModel {
            privkey: match self.privkey {
                Some(key) => Some(key@),
                None => None,
            },
        }
    }
}

/// Where the generation of a key pair stands after a step.
#[derive(Debug)]
pub enum KeygenStep {
    /// Run this program and resume with how it ended and what it printed.
    Next(Keygen, Command),
    /// Both keys are there.
    Done(Keypair),
    /// A run of the key tool failed.
    Failed(WgError),
}

/// A `KeygenStep` as plain values.
pub enum KeygenStepModel {
    Next(KeygenModel, CommandModel),
    Done(KeypairModel),
    Failed(ErrorModel),
}

impl View for KeygenStep {
    type V = KeygenStepModel;

    open spec fn view(&self) -> KeygenStepModel {
        match self {
            KeygenStep::Next(keygen, command) => KeygenStepModel::Next(keygen@, command@),
            KeygenStep::Done(keypair) => KeygenStepModel::Done(keypair@),
            KeygenStep::Failed(error) => KeygenStepModel::Failed(error@),
        }
    }
}

impl KeygenModel {
    /// The program whose end is awaited: the one that prints a private key,
    /// or, once that key is there, the one that derives the public key from it.
    pub open spec fn command(self) -> CommandModel {
        match self.privkey {
            None => genkey(),
            Some(key) => pubkey(key),
        }
    }

    /// The step that the end of the awaited program leads to. A failed run
    /// fails the generation. What a successful run printed, decoded and
    /// trimmed, is the private key if none was there yet, and is then fed to
    /// the derivation of the public key; otherwise it is the public key, and
    /// the pair is complete.
    pub open spec fn resume(self, success: bool, exit: Option<i32>, stdout: Seq<u8>)
        -> KeygenStepModel {
        if !success {
            KeygenStepModel::Failed(self.command().failure(exit))
        } else {
            match self.privkey {
                None => KeygenStepModel::Next(
                    KeygenModel { privkey: Some(trimmed(utf8_lossy(stdout))) },
                    pubkey(trimmed(utf8_lossy(stdout))),
                ),
                Some(key) => KeygenStepModel::Done(
                    KeypairModel { privkey: key, pubkey: trimmed(utf8_lossy(stdout)) },
                ),
            }
        }
    }
}

impl Keygen {
    /// Takes the next step, given how the awaited program ended and what it
    /// printed.
    pub fn resume(self, success: bool, exit: Option<i32>, stdout: &[u8]) -> (step: KeygenStep)
        ensures
            step@ == self@.resume(success, exit, stdout@),
    {
        match self.privkey {
            None => {
                match Command::genkey().outcome(success, exit, stdout) {
                    Ok(key) => {
                        let command = Command::pubkey(key.as_str());
                        KeygenStep::Next(Keygen { privkey: Some(key) }, command)
                    },
                    Err(error) => KeygenStep::Failed(error),
                }
            },
            Some(privkey) => {
                match Command::pubkey(privkey.as_str()).outcome(success, exit, stdout) {
                    Ok(key) => KeygenStep::Done(Keypair { privkey, pubkey: key }),
                    Err(error) => KeygenStep::Failed(error),
                }
            },
        }
    }
}

/// The address that a text writes, if it writes one.
pub open spec fn readable(address: Seq<char>) -> Option<Cidr> {
    match address_of(address) {
        Ok(cidr) => Some(cidr),
        Err(_) => None,
    }
}

impl Wg {
    /// The name is short enough to be put into a request.
    pub open spec fn encodable(&self) -> bool {
        encode_utf8(self.iface@).len() <= MAX_NAME_LEN
    }

    /// Tells whether the name is short enough to be put into a request, as
    /// the operations that talk to the kernel need it to be.
    pub fn fits(&self) -> (r: bool)
        ensures
            r == self.encodable(),
    {
        self.iface.as_str().as_bytes().len() <= MAX_NAME_LEN
    }

    /// A handle for the interface named `iface`. Nothing is created.
    pub fn new(iface: &str) -> (wg: Wg)
        ensures
            wg.iface@ == iface@,
    {
        Wg { iface: String::from_str(iface) }
    }

    /// Starts the generation of a key pair: the first thing to run is the
    /// program that prints a new private key.
    pub fn generate_keypair() -> (step: KeygenStep)
        ensures
            step@ == KeygenStepModel::Next(KeygenModel { privkey: None }, genkey()),
    {
        KeygenStep::Next(Keygen { privkey: None }, Command::genkey())
    }

    /// Starts the creation of the link, with the WireGuard link type.
    pub fn add_link(&self) -> (step: Step)
        requires
            self.encodable(),
        ensures
            step@ == SessionModel::begin(Goal::AddLink, self.iface@, None, Seq::empty()),
    {
        let none = String::new();
        Session::begin(Goal::AddLink, self.iface.as_str(), None, none.as_str())
    }

    /// Starts the assignment of `address`, a text of the form `ip/prefix`, to
    /// the link. If the text cannot be read the operation fails at once with
    /// `InvalidAddress`.
    pub fn add_address(&self, address: &str) -> (step: Step)
        requires
            self.encodable(),
        ensures
            step@ == SessionModel::begin(
                Goal::AddAddress,
                self.iface@,
                readable(address@),
                Seq::empty(),
            ),
    {
        let cidr = match parse_address(address) {
            Ok(cidr) => Some(cidr),
            Err(_) => None,
        };
        let none = String::new();
        Session::begin(Goal::AddAddress, self.iface.as_str(), cidr, none.as_str())
    }

    /// Starts the raising of the link.
    pub fn link_up(&self) -> (step: Step)
        requires
            self.encodable(),
        ensures
            step@ == SessionModel::begin(Goal::LinkUp, self.iface@, None, Seq::empty()),
    {
        let none = String::new();
        Session::begin(Goal::LinkUp, self.iface.as_str(), None, none.as_str())
    }

    /// Starts bringing the interface up: the link is created, given
    /// `address`, and raised; the route is installed, whether or not that
    /// succeeds; and the tunnel is given `privkey` and the fixed listen port.
    /// The first failure ends the operation and nothing is undone. An address
    /// that cannot be read fails it once the link has been created.
    pub fn up(&self, privkey: &str, address: &str) -> (step: Step)
        requires
            self.encodable(),
        ensures
            step@ == SessionModel::begin(
                Goal::Up,
                self.iface@,
                readable(address@),
                interface_config(privkey@),
            ),
    {
        let cidr = match parse_address(address) {
            Ok(cidr) => Some(cidr),
            Err(_) => None,
        };
        let config = interface_config_text(privkey);
        Session::begin(Goal::Up, self.iface.as_str(), cidr, config.as_str())
    }

    /// Starts the removal of the link.
    pub fn down(&self) -> (step: Step)
        ensures
            step@ == SessionModel::begin(Goal::Down, self.iface@, None, Seq::empty()),
    {
        let none = String::new();
        Session::begin(Goal::Down, self.iface.as_str(), None, none.as_str())
    }

    /// Starts pushing configuration text to the tunnel.
    pub fn add_config(&self, config: &str) -> (step: Step)
        ensures
            step@ == SessionModel::begin(Goal::AddConfig, self.iface@, None, config@),
    {
        Session::begin(Goal::AddConfig, self.iface.as_str(), None, config)
    }
}

} // verus!
