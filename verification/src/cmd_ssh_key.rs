//! `oxide ssh-key add|delete|generate|list|sync-from-github`.
use vstd::prelude::*;

use crate::cmd_route::check_limit;
use crate::colors::{AnsiStyle, ColorScheme};
use crate::config::strings_view;
use crate::naming::{lower_case, to_lowercase};
use crate::ssh::SSHKeyAlgorithm;
use crate::text::{concat2, concat3, decimal, decimal_text, owned, str_equal};
use crate::types::FormatOutput;

verus! {

/// The line printed for a key added to the account.
pub open spec fn added_key_message(cs: ColorScheme, name: Seq<char>, algorithm: Seq<char>, fingerprint: Seq<char>) -> Seq<char> {
    cs.styled(AnsiStyle::Green, "✔"@) + " Added SSH public key "@ + name + ": "@ + algorithm + " "@ + fingerprint
}

/// The line printed for a key added to the account, given its algorithm and
/// fingerprint as the key library displays them.
pub fn added_key_line(cs: &ColorScheme, name: &str, algorithm: &str, fingerprint: &str) -> (r: String)
    ensures
        r@ == added_key_message(*cs, name@, algorithm@, fingerprint@),
{
    let icon = cs.success_icon();
    let a = concat3(icon.as_str(), " Added SSH public key ", name);
    let b = concat3(a.as_str(), ": ", algorithm);
    concat3(b.as_str(), " ", fingerprint)
}

/// The body that adds a key to the account.
pub struct SshKeyCreate {
    pub name: String,
    pub description: String,
    pub public_key: String,
}

/// Add an SSH public key to your account.
pub struct CmdSSHKeyAdd {
    /// The path of the public key file.
    pub public_key_file: String,
    /// The name of the key (asked for when not given).
    pub name: Option<String>,
    /// The description of the key (asked for when not given, the key's comment by
    /// default).
    pub description: Option<String>,
}

impl CmdSSHKeyAdd {
    /// The key to add: the given name and description, else the answers to the
    /// prompts "SSH key name" and "SSH key description".
    pub fn key_create(&self, asked_name: &str, asked_description: &str, public_key: &str) -> (r: SshKeyCreate)
        ensures
            r.name@ == match self.name {
                Some(n) => n@,
                None => asked_name@,
            },
            r.description@ == match self.description {
                Some(d) => d@,
                None => asked_description@,
            },
            r.public_key@ == public_key@,
    {
        let name = match &self.name {
            Some(n) => owned(n.as_str()),
            None => owned(asked_name),
        };
        let description = match &self.description {
            Some(d) => owned(d.as_str()),
            None => owned(asked_description),
        };
        SshKeyCreate { name, description, public_key: owned(public_key) }
    }
}

/// Delete an SSH public key from your account.
pub struct CmdSSHKeyDelete {
    pub name: String,
}

impl CmdSSHKeyDelete {
    /// What is printed once the key is deleted.
    pub fn deleted_message(&self, cs: &ColorScheme) -> (r: String)
        ensures
            r@ == cs.styled(AnsiStyle::Red, "✔"@) + " Deleted SSH key "@ + self.name@,
    {
        let icon = cs.success_icon_with_color(AnsiStyle::Red);
        concat3(icon.as_str(), " Deleted SSH key ", self.name.as_str())
    }
}

/// The key algorithm named by `--type`, in any case.
pub open spec fn parsed_algorithm(s: Seq<char>) -> Option<SSHKeyAlgorithm> {
    let l = lower_case(s);
    if l == "ecdsa"@ {
        Some(SSHKeyAlgorithm::Ecdsa)
    } else if l == "ed25519"@ {
        Some(SSHKeyAlgorithm::Ed25519)
    } else if l == "rsa"@ {
        Some(SSHKeyAlgorithm::Rsa)
    } else {
        None
    }
}

/// Reads the `--type` of a key to generate.
pub fn parse_algorithm(s: &str) -> (r: Result<SSHKeyAlgorithm, String>)
    ensures
        match parsed_algorithm(s@) {
            Some(a) => r == Ok::<SSHKeyAlgorithm, String>(a),
            None => r matches Err(m) && m@ == "supported types are `ecdsa`, `ed25512`, and `rsa`"@,
        },
{
    let l = to_lowercase(s);
    if str_equal(l.as_str(), "ecdsa") {
        Ok(SSHKeyAlgorithm::Ecdsa)
    } else if str_equal(l.as_str(), "ed25519") {
        Ok(SSHKeyAlgorithm::Ed25519)
    } else if str_equal(l.as_str(), "rsa") {
        Ok(SSHKeyAlgorithm::Rsa)
    } else {
        Err(owned("supported types are `ecdsa`, `ed25512`, and `rsa`"))
    }
}

/// The key to generate.
pub enum KeySpec {
    /// An ECDSA key on the NIST P-256 curve.
    EcdsaP256,
    Ed25519,
    /// An RSA key of that many bits.
    Rsa(usize),
}

/// Generate an SSH key pair and add its public key to your account.
pub struct CmdSSHKeyGenerate {
    /// The path of the private key file to write.
    pub private_key_file: String,
    pub key_type: SSHKeyAlgorithm,
    /// The size of the key in bits.
    pub key_size: Option<usize>,
    pub comment: String,
    pub name: Option<String>,
    pub description: Option<String>,
}

impl CmdSSHKeyGenerate {
    /// The key to generate: ECDSA keys are 256 bits, Ed25519 keys have a fixed size,
    /// RSA keys have 3072 bits unless told otherwise.
    pub fn key_spec(&self) -> (r: Result<KeySpec, String>)
        ensures
            match self.key_type {
                SSHKeyAlgorithm::Ecdsa => match self.key_size {
                    Some(b) if b != 256 => r matches Err(m) && m@ == "ECDSA key length must be 256"@,
                    _ => r == Ok::<KeySpec, String>(KeySpec::EcdsaP256),
                },
                SSHKeyAlgorithm::Ed25519 => r == Ok::<KeySpec, String>(KeySpec::Ed25519),
                SSHKeyAlgorithm::Rsa => r == Ok::<KeySpec, String>(KeySpec::Rsa(
                    match self.key_size {
                        Some(b) => b,
                        None => 3072,
                    },
                )),
            },
    {
        match self.key_type {
            SSHKeyAlgorithm::Ecdsa => match self.key_size {
                Some(b) => if b == 256 {
                    Ok(KeySpec::EcdsaP256)
                } else {
                    Err(owned("ECDSA key length must be 256"))
                },
                None => Ok(KeySpec::EcdsaP256),
            },
            SSHKeyAlgorithm::Ed25519 => Ok(KeySpec::Ed25519),
            SSHKeyAlgorithm::Rsa => Ok(KeySpec::Rsa(
                match self.key_size {
                    Some(b) => b,
                    None => 3072,
                },
            )),
        }
    }

    /// The label of the progress indicator shown while an RSA key of `bits` bits is
    /// generated.
    pub fn rsa_label(&self, bits: usize) -> (r: String)
        ensures
            r@ == " Generating "@ + decimal(bits as nat) + " bit RSA key"@,
    {
        let n = decimal_text(bits);
        concat3(" Generating ", n.as_str(), " bit RSA key")
    }
}

/// List SSH public keys in your account.
pub struct CmdSSHKeyList {
    /// Maximum number of keys to list.
    pub limit: u32,
    /// Make additional HTTP requests to fetch all pages.
    pub paginate: bool,
    /// The output format.
    pub format: Option<FormatOutput>,
}

impl CmdSSHKeyList {
    /// The page size must be positive.
    pub fn check(&self) -> (r: Result<(), String>)
        ensures
            match r {
                Ok(_) => self.limit >= 1,
                Err(m) => self.limit < 1 && m@ == "--limit must be greater than 0"@,
            },
    {
        check_limit(self.limit)
    }
}

/// Sync your SSH public keys with those of a GitHub user.
pub struct CmdSSHKeySyncFromGithub {
    pub github_username: String,
    /// Remove the keys that are not on GitHub (not offered yet).
    pub remove_unsynced_keys: bool,
}

/// The names given to `n` keys of `user`: the user's name for a single key, else
/// `user-0`, `user-1`, ...
pub open spec fn github_key_names(user: Seq<char>, n: nat) -> Seq<Seq<char>> {
    if n == 1 {
        seq![user]
    } else {
        Seq::new(n, |i: int| user + "-"@ + decimal(i as nat))
    }
}

impl CmdSSHKeySyncFromGithub {
    /// The names of the `n` keys fetched from GitHub.
    pub fn key_names(&self, n: usize) -> (r: Vec<String>)
        ensures
            strings_view(r@) == github_key_names(self.github_username@, n as nat),
    {
        let mut names: Vec<String> = Vec::new();
        if n == 1 {
            names.push(owned(self.github_username.as_str()));
            assert(strings_view(names@) =~= github_key_names(self.github_username@, n as nat));
            return names;
        }
        let mut i: usize = 0;
        while i < n
            invariant
                i <= n,
                n != 1,
                strings_view(names@) =~= github_key_names(self.github_username@, n as nat).take(i as int),
            decreases n - i,
        {
            let d = decimal_text(i);
            let name = concat3(self.github_username.as_str(), "-", d.as_str());
            let ghost before = strings_view(names@);
            names.push(name);
            assert(strings_view(names@) =~= before.push(name@));
            assert(github_key_names(self.github_username@, n as nat).take(i + 1) =~= github_key_names(
                self.github_username@,
                n as nat,
            ).take(i as int).push(name@));
            i = i + 1;
        }
        assert(github_key_names(self.github_username@, n as nat).take(n as int) =~= github_key_names(
            self.github_username@,
            n as nat,
        ));
        names
    }

    /// The description of a key: its comment, else where it comes from.
    pub fn key_description(&self, comment: &str) -> (r: String)
        ensures
            r@ == if comment@.len() == 0 {
                "From GitHub user "@ + self.github_username@
            } else {
                comment@
            },
    {
        if comment.unicode_len() == 0 {
            concat2("From GitHub user ", self.github_username.as_str())
        } else {
            owned(comment)
        }
    }

    /// The line printed once the keys are synced.
    pub fn synced_message(&self, cs: &ColorScheme) -> (r: String)
        ensures
            r@ == cs.styled(AnsiStyle::Green, "✔"@) + " Oxide SSH keys synced with GitHub user "@ + self.github_username@
                + "!"@,
    {
        let icon = cs.success_icon();
        let a = concat3(icon.as_str(), " Oxide SSH keys synced with GitHub user ", self.github_username.as_str());
        concat2(a.as_str(), "!")
    }
}

/// The file of the public key that goes with the private key file `private_key_file`:
/// the same path followed by `.pub`.
pub fn public_key_path(private_key_file: &str) -> (r: String)
    ensures
        r@ == private_key_file@ + ".pub"@,
{
    concat2(private_key_file, ".pub")
}

} // verus!
