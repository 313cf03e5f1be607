//! The plugin's configuration: from its arguments and the key files they
//! name to a pass that is ready to walk, or to the list of what is wrong.

use crate::codec::Scheme;
use crate::pass::Pass;
use crate::sign::{
    sodium_init, PublicKey, SecretKey, SignatureKeyPair, PUBLICKEYBYTES, SECRETKEYBYTES,
};
use crate::validator::same_text;
use vstd::prelude::*;
use vstd::slice::slice_subrange;

verus! {

/// The name of the argument that names the public key file.
pub const PUBLIC_KEY: &'static str = "public_key";

/// The name of the argument that names the secret key file.
pub const SECRET_KEY: &'static str = "secret_key";

/// Which of the two keys an argument names.
#[derive(Clone, Copy, Debug, PartialEq, Eq, Structural)]
pub enum KeyRole {
    Public,
    Secret,
}

/// What came of reading a key file.
pub enum FileRead {
    /// The file could not be opened.
    OpenFailed,
    /// The file was opened, and reading it failed.
    ReadFailed,
    /// What the file holds, from its start.
    Bytes(Vec<u8>),
}

/// One argument of the plugin: `name`, or `name = "filename"`.
pub struct PluginArg {
    pub name: String,
    /// What came of reading the file that the argument names, or `None`
    /// where it names no file. It is looked at only where `name` is that of
    /// a key.
    pub file: Option<FileRead>,
}

/// Why a key file gives no key.
#[derive(Clone, Copy, Debug, PartialEq, Eq, Structural)]
pub enum KeyFileError {
    /// The file could not be opened.
    CannotOpen,
    /// Reading the file failed.
    CannotRead,
    /// The file holds only `got` bytes, fewer than the key has.
    Short { got: usize },
}

/// What is wrong with a configuration. Arguments are named by their place
/// in the list, from 0.
#[derive(Clone, Copy, Debug, PartialEq, Eq, Structural)]
pub enum ConfigError {
    /// The plugin was given no list of arguments.
    Usage,
    /// The name of this argument is not known.
    UnknownArgument { arg: usize },
    /// The key file that this argument names gives no key.
    KeyFile { arg: usize, error: KeyFileError },
    /// No public key is specified.
    MissingPublicKey,
}

/// The key that an argument of this name sets, if the name is known.
pub open spec fn role_of(name: Seq<char>) -> Option<KeyRole> {
    if name == PUBLIC_KEY@ {
        Some(KeyRole::Public)
    } else if name == SECRET_KEY@ {
        Some(KeyRole::Secret)
    } else {
        None
    }
}

/// The number of bytes of the key of a role.
pub open spec fn role_length(role: KeyRole) -> nat {
    match role {
        KeyRole::Public => PUBLICKEYBYTES as nat,
        KeyRole::Secret => SECRETKEYBYTES as nat,
    }
}

/// The key of `len` bytes that a read of a key file gives: the first `len`
/// bytes of a file that holds as many.
pub open spec fn key_read(read: FileRead, len: nat) -> Result<Seq<u8>, KeyFileError> {
    match read {
        FileRead::OpenFailed => Err(KeyFileError::CannotOpen),
        FileRead::ReadFailed => Err(KeyFileError::CannotRead),
        FileRead::Bytes(bytes) => if bytes@.len() >= len {
            Ok(bytes@.take(len as int))
        } else {
            Err(KeyFileError::Short { got: bytes@.len() as usize })
        },
    }
}

/// What is wrong with the argument at place `i`, if anything: its name is
/// unknown, or it names a key file that gives no key.
pub open spec fn arg_error(arg: PluginArg, i: int) -> Option<ConfigError> {
    match role_of(arg.name@) {
        None => Some(ConfigError::UnknownArgument { arg: i as usize }),
        Some(role) => match arg.file {
            None => None,
            Some(read) => match key_read(read, role_length(role)) {
                Ok(_) => None,
                Err(error) => Some(ConfigError::KeyFile { arg: i as usize, error }),
            },
        },
    }
}

/// What is wrong with the first `n` arguments, in their order.
pub open spec fn arg_errors(args: Seq<PluginArg>, n: nat) -> Seq<ConfigError>
    decreases n,
{
    if n == 0 {
        Seq::empty()
    } else {
        let before = arg_errors(args, (n - 1) as nat);
        match arg_error(args[n - 1], n - 1) {
            Some(error) => before.push(error),
            None => before,
        }
    }
}

/// The file that the first `n` arguments set for a role: that of the last
/// argument of the role, which is none where that argument names no file.
pub open spec fn key_slot(args: Seq<PluginArg>, role: KeyRole, n: nat) -> Option<FileRead>
    decreases n,
{
    if n == 0 {
        None
    } else if role_of(args[n - 1].name@) == Some(role) {
        args[n - 1].file
    } else {
        key_slot(args, role, (n - 1) as nat)
    }
}

/// Everything that is wrong with a configuration: with each argument in
/// turn, and at the end a public key that is not specified. Without a list
/// of arguments only the usage is reported.
pub open spec fn registration_errors(args: Option<Seq<PluginArg>>) -> Seq<ConfigError> {
    match args {
        None => seq![ConfigError::Usage],
        Some(args) => {
            let errors = arg_errors(args, args.len());
            if key_slot(args, KeyRole::Public, args.len()) is None {
                errors.push(ConfigError::MissingPublicKey)
            } else {
                errors
            }
        },
    }
}

/// The key of a role that a configuration without errors sets, if it sets one.
pub open spec fn configured_key(args: Seq<PluginArg>, role: KeyRole) -> Option<Seq<u8>> {
    match key_slot(args, role, args.len()) {
        Some(read) => match key_read(read, role_length(role)) {
            Ok(key) => Some(key),
            Err(_) => None,
        },
        None => None,
    }
}

/// The number of bytes of the key that an argument of this name sets, or
/// `None` where the name is not known. Only for a known name is the file
/// that the argument names read.
pub fn key_length(name: &str) -> (len: Option<usize>)
    ensures
        len == (match role_of(name@) {
            Some(role) => Some(role_length(role) as usize),
            None => None,
        }),
{
    if same_text(name, PUBLIC_KEY) {
        Some(PUBLICKEYBYTES)
    } else if same_text(name, SECRET_KEY) {
        Some(SECRETKEYBYTES)
    } else {
        None
    }
}

/// Take a key of `len` bytes from what reading its file gave.
pub fn read_key<'a>(read: &'a FileRead, len: usize) -> (key: Result<&'a [u8], KeyFileError>)
    ensures
        match key {
            Ok(key) => key_read(*read, len as nat) == Ok::<Seq<u8>, KeyFileError>(key@),
            Err(error) => key_read(*read, len as nat) == Err::<Seq<u8>, KeyFileError>(error),
        },
        key matches Ok(key) ==> key@.len() == len,
{
    match read {
        FileRead::OpenFailed => Err(KeyFileError::CannotOpen),
        FileRead::ReadFailed => Err(KeyFileError::CannotRead),
        FileRead::Bytes(bytes) => {
            if bytes.len() >= len {
                Ok(slice_subrange(bytes.as_slice(), 0, len))
            } else {
                Err(KeyFileError::Short { got: bytes.len() })
            }
        },
    }
}

/// Set up the pass from the plugin's arguments. Every argument is looked
/// at and everything that is wrong is reported; the pass is made only where
/// nothing is.
pub fn plugin_registrar(args: Option<&Vec<PluginArg>>, scheme: Scheme) -> (registered: Result<
    Pass,
    Vec<ConfigError>,
>)
    ensures
        match registered {
            Ok(pass) => {
                &&& args matches Some(args)
                &&& registration_errors(Some(args@)).len() == 0
                &&& pass.authorized_root() is None
                &&& pass.scheme() == scheme
                &&& Some(pass.public_key()) == configured_key(args@, KeyRole::Public)
                &&& pass.secret_key() == configured_key(args@, KeyRole::Secret)
            },
            Err(errors) => {
                &&& errors@.len() > 0
                &&& errors@ == registration_errors(
                    match args {
                        Some(args) => Some(args@),
                        None => None,
                    },
                )
            },
        },
{
    sodium_init();

    let args = match args {
        Some(args) => args,
        None => {
            let mut errors: Vec<ConfigError> = Vec::new();
            errors.push(ConfigError::Usage);
            assert(errors@ =~= seq![ConfigError::Usage]);
            return Err(errors);
        },
    };

    let mut errors: Vec<ConfigError> = Vec::new();
    let mut pubkey: Option<PublicKey> = None;
    let mut seckey: Option<SecretKey> = None;
    let n = args.len();
    let mut i: usize = 0;
    while i < n
        invariant
            n == args@.len(),
            i <= n,
            errors@ == arg_errors(args@, i as nat),
            match key_slot(args@, KeyRole::Public, i as nat) {
                Some(read) => pubkey matches Some(key) && (errors@.len() == 0 ==> key_read(
                    read,
                    PUBLICKEYBYTES as nat,
                ) == Ok::<Seq<u8>, KeyFileError>(key@)),
                None => pubkey is None,
            },
            match key_slot(args@, KeyRole::Secret, i as nat) {
                Some(read) => seckey matches Some(key) && (errors@.len() == 0 ==> key_read(
                    read,
                    SECRETKEYBYTES as nat,
                ) == Ok::<Seq<u8>, KeyFileError>(key@)),
                None => seckey is None,
            },
        decreases n - i,
    {
        let arg = &args[i];
        if same_text(arg.name.as_str(), PUBLIC_KEY) {
            pubkey = match &arg.file {
                None => None,
                Some(read) => match read_key(read, PUBLICKEYBYTES) {
                    Ok(bytes) => PublicKey::from_slice(bytes),
                    Err(error) => {
                        errors.push(ConfigError::KeyFile { arg: i, error });
                        Some(PublicKey([0u8; PUBLICKEYBYTES]))
                    },
                },
            };
        } else if same_text(arg.name.as_str(), SECRET_KEY) {
            seckey = match &arg.file {
                None => None,
                Some(read) => match read_key(read, SECRETKEYBYTES) {
                    Ok(bytes) => SecretKey::from_slice(bytes),
                    Err(error) => {
                        errors.push(ConfigError::KeyFile { arg: i, error });
                        Some(SecretKey([0u8; SECRETKEYBYTES]))
                    },
                },
            };
        } else {
            errors.push(ConfigError::UnknownArgument { arg: i });
        }
        i = i + 1;
    }

    let pubkey = match pubkey {
        Some(key) => key,
        None => {
            errors.push(ConfigError::MissingPublicKey);
            return Err(errors);
        },
    };
    if errors.len() > 0 {
        return Err(errors);
    }
    Ok(Pass::new(SignatureKeyPair { public: pubkey, secret: seckey }, scheme))
}

} // verus!
