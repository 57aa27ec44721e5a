//! `scribe sync …`: configure the sync provider and show sync status.
//!
//! Talking to providers and the keychain happens outside the library; this
//! module reads the user's answers and decides what to configure.

use vstd::prelude::*;
use crate::cli::project::OutputFormat;
use crate::config::{RestRole, SyncProvider};
use crate::error::ScribeError;
use crate::text::{lowercase, push_str, str_eq, string_of, to_lowercase, trim_chars, trimmed};

verus! {

/// `scribe sync`: a one-shot sync without a subcommand.
#[derive(Debug)]
pub struct SyncCommand {
    /// The subcommand, if any.
    pub subcommand: Option<SyncSubcommand>,
    /// Output format.
    pub output: OutputFormat,
}

/// The `scribe sync` subcommands.
#[derive(Debug)]
pub enum SyncSubcommand {
    /// Configure the provider.
    Configure(SyncConfigureArgs),
    /// Show sync status.
    Status(SyncStatusArgs),
}

/// `scribe sync configure`.
#[derive(Debug)]
pub struct SyncConfigureArgs {
    /// Provider name; asked for when absent.
    pub provider: Option<String>,
    /// Remove the stored secrets instead.
    pub remove: bool,
    /// Output format.
    pub output: OutputFormat,
}

/// `scribe sync status`.
#[derive(Debug)]
pub struct SyncStatusArgs {
    /// Output format.
    pub output: OutputFormat,
}

/// The provider a name denotes, case ignored.
pub open spec fn provider_named(s: Seq<char>) -> Result<SyncProvider, Seq<char>> {
    let l = lowercase(s);
    if l == "gist"@ { Ok(SyncProvider::Gist) }
    else if l == "s3"@ { Ok(SyncProvider::S3) }
    else if l == "icloud"@ { Ok(SyncProvider::ICloud) }
    else if l == "jsonbin"@ { Ok(SyncProvider::JsonBin) }
    else if l == "dropbox"@ { Ok(SyncProvider::Dropbox) }
    else if l == "rest"@ { Ok(SyncProvider::Rest) }
    else if l == "file"@ { Ok(SyncProvider::File) }
    else {
        Err("unknown provider '"@ + l + "'; valid values: gist, s3, icloud, jsonbin, dropbox, rest, file"@)
    }
}

/// Reads a provider name, case ignored.
pub fn parse_provider_str(s: &str) -> (r: Result<SyncProvider, ScribeError>)
    ensures
        match r {
            Ok(p) => provider_named(s@) == Ok::<SyncProvider, Seq<char>>(p),
            Err(e) => e is Input && provider_named(s@) == Err::<SyncProvider, Seq<char>>(e->message@),
        },
{
    let l = to_lowercase(s);
    let t = l.as_str();
    if str_eq(t, "gist") { Ok(SyncProvider::Gist) }
    else if str_eq(t, "s3") { Ok(SyncProvider::S3) }
    else if str_eq(t, "icloud") { Ok(SyncProvider::ICloud) }
    else if str_eq(t, "jsonbin") { Ok(SyncProvider::JsonBin) }
    else if str_eq(t, "dropbox") { Ok(SyncProvider::Dropbox) }
    else if str_eq(t, "rest") { Ok(SyncProvider::Rest) }
    else if str_eq(t, "file") { Ok(SyncProvider::File) }
    else {
        let mut out: Vec<char> = Vec::new();
        push_str(&mut out, "unknown provider '");
        push_str(&mut out, t);
        push_str(&mut out, "'; valid values: gist, s3, icloud, jsonbin, dropbox, rest, file");
        Err(ScribeError::Input { message: string_of(&out) })
    }
}

/// The provider a menu answer (`1` to `7`) picks.
pub open spec fn provider_choice_of(line: Seq<char>) -> Result<SyncProvider, Seq<char>> {
    let t = trimmed(line);
    if t == "1"@ { Ok(SyncProvider::Gist) }
    else if t == "2"@ { Ok(SyncProvider::S3) }
    else if t == "3"@ { Ok(SyncProvider::ICloud) }
    else if t == "4"@ { Ok(SyncProvider::JsonBin) }
    else if t == "5"@ { Ok(SyncProvider::Dropbox) }
    else if t == "6"@ { Ok(SyncProvider::Rest) }
    else if t == "7"@ { Ok(SyncProvider::File) }
    else { Err("invalid choice '"@ + t + "'; enter a number between 1 and 7"@) }
}

/// Reads the provider menu answer.
pub fn parse_provider_choice(line: &str) -> (r: Result<SyncProvider, ScribeError>)
    ensures
        match r {
            Ok(p) => provider_choice_of(line@) == Ok::<SyncProvider, Seq<char>>(p),
            Err(e) => e is Input && provider_choice_of(line@) == Err::<SyncProvider, Seq<char>>(e->message@),
        },
{
    let t = string_of(&trim_chars(line));
    let s = t.as_str();
    if str_eq(s, "1") { Ok(SyncProvider::Gist) }
    else if str_eq(s, "2") { Ok(SyncProvider::S3) }
    else if str_eq(s, "3") { Ok(SyncProvider::ICloud) }
    else if str_eq(s, "4") { Ok(SyncProvider::JsonBin) }
    else if str_eq(s, "5") { Ok(SyncProvider::Dropbox) }
    else if str_eq(s, "6") { Ok(SyncProvider::Rest) }
    else if str_eq(s, "7") { Ok(SyncProvider::File) }
    else {
        let mut out: Vec<char> = Vec::new();
        push_str(&mut out, "invalid choice '");
        push_str(&mut out, s);
        push_str(&mut out, "'; enter a number between 1 and 7");
        Err(ScribeError::Input { message: string_of(&out) })
    }
}

/// The REST role a menu answer (`1` master, `2` client) picks.
pub open spec fn rest_role_of(line: Seq<char>) -> Result<RestRole, Seq<char>> {
    let t = trimmed(line);
    if t == "1"@ { Ok(RestRole::Master) }
    else if t == "2"@ { Ok(RestRole::Client) }
    else { Err("invalid choice '"@ + t + "'; enter 1 or 2"@) }
}

/// Reads the REST role menu answer.
pub fn parse_rest_role(line: &str) -> (r: Result<RestRole, ScribeError>)
    ensures
        match r {
            Ok(p) => rest_role_of(line@) == Ok::<RestRole, Seq<char>>(p),
            Err(e) => e is Input && rest_role_of(line@) == Err::<RestRole, Seq<char>>(e->message@),
        },
{
    let t = string_of(&trim_chars(line));
    let s = t.as_str();
    if str_eq(s, "1") { Ok(RestRole::Master) }
    else if str_eq(s, "2") { Ok(RestRole::Client) }
    else {
        let mut out: Vec<char> = Vec::new();
        push_str(&mut out, "invalid choice '");
        push_str(&mut out, s);
        push_str(&mut out, "'; enter 1 or 2");
        Err(ScribeError::Input { message: string_of(&out) })
    }
}

/// The lowercase name of a provider, as status output shows it.
pub open spec fn provider_name(p: SyncProvider) -> Seq<char> {
    match p {
        SyncProvider::Gist => "gist"@,
        SyncProvider::S3 => "s3"@,
        SyncProvider::ICloud => "icloud"@,
        SyncProvider::JsonBin => "jsonbin"@,
        SyncProvider::Dropbox => "dropbox"@,
        SyncProvider::Rest => "rest"@,
        SyncProvider::File => "file"@,
    }
}

impl SyncProvider {
    /// The lowercase name of the provider.
    pub fn name(&self) -> (r: &'static str)
        ensures
            r@ == provider_name(*self),
    {
        match self {
            SyncProvider::Gist => "gist",
            SyncProvider::S3 => "s3",
            SyncProvider::ICloud => "icloud",
            SyncProvider::JsonBin => "jsonbin",
            SyncProvider::Dropbox => "dropbox",
            SyncProvider::Rest => "rest",
            SyncProvider::File => "file",
        }
    }
}

/// Naming a provider and reading the name back gives the provider.
pub proof fn lemma_provider_name_round_trip(p: SyncProvider)
    ensures
        provider_named(provider_name(p)) == Ok::<SyncProvider, Seq<char>>(p),
{
    reveal_strlit("gist");
    reveal_strlit("s3");
    reveal_strlit("icloud");
    reveal_strlit("jsonbin");
    reveal_strlit("dropbox");
    reveal_strlit("rest");
    reveal_strlit("file");
    let n = provider_name(p);
    assert(crate::text::all_ascii(n));
    assert(crate::text::ascii_lower(n) =~= n);
    assert(lowercase(n) == n);
    assert("gist"@[0] == 'g' && "s3"@[0] == 's' && "icloud"@[0] == 'i' && "jsonbin"@[0] == 'j');
    assert("dropbox"@[0] == 'd' && "rest"@[0] == 'r' && "file"@[0] == 'f');
    assert(n.len() > 0);
}

/// The refusal for a one-shot sync while sync is disabled.
pub open spec fn sync_disabled_message() -> Seq<char> {
    "sync is not enabled — run `scribe sync configure` to set up a provider"@
}

/// Whether a one-shot sync may run: only while sync is enabled.
pub fn check_sync_enabled(enabled: bool) -> (r: Result<(), ScribeError>)
    ensures
        r is Ok <==> enabled,
        r matches Err(e) ==> e is Input && e->message@ == sync_disabled_message(),
{
    if enabled {
        Ok(())
    } else {
        Err(ScribeError::Input {
            message: "sync is not enabled — run `scribe sync configure` to set up a provider".to_owned(),
        })
    }
}

} // verus!
