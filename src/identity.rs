//! Identity subcommands and the resolution of the default identity's name.
use vstd::prelude::*;

use colorful::Colorful;

use crate::text::same_text;

verus! {

/// The identity subcommands, each with the name it is given on the command line.
#[derive(Clone, Debug, PartialEq, Eq)]
pub enum IdentitySubcommand {
    Create(String),
    Show(Option<String>),
    List,
    Default(Option<String>),
    Delete(String),
}

/// The `identity` command.
#[derive(Clone, Debug, PartialEq, Eq)]
pub struct IdentityCommand {
    pub subcommand: IdentitySubcommand,
}

/// The handler an identity subcommand runs.
#[derive(Clone, Copy, Debug, PartialEq, Eq, Structural)]
pub enum IdentityHandler {
    Create,
    Show,
    List,
    Default,
    Delete,
}

/// A handler to run, with the identity name it is given.
#[derive(Clone, Debug, PartialEq, Eq)]
pub struct IdentityTask {
    pub handler: IdentityHandler,
    pub name: Option<String>,
}

/// The handler each subcommand is dispatched to, with its argument.
pub open spec fn task_of(c: IdentitySubcommand) -> IdentityTask {
    match c {
        IdentitySubcommand::Create(n) => IdentityTask { handler: IdentityHandler::Create, name: Some(n) },
        IdentitySubcommand::Show(n) => IdentityTask { handler: IdentityHandler::Show, name: n },
        IdentitySubcommand::List => IdentityTask { handler: IdentityHandler::List, name: None },
        IdentitySubcommand::Default(n) => IdentityTask { handler: IdentityHandler::Default, name: n },
        IdentitySubcommand::Delete(n) => IdentityTask { handler: IdentityHandler::Delete, name: Some(n) },
    }
}

impl IdentityCommand {
    /// Dispatches the subcommand to its handler.
    pub fn run(self) -> (r: IdentityTask)
        ensures
            r == task_of(self.subcommand),
    {
        match self.subcommand {
            IdentitySubcommand::Create(n) => IdentityTask { handler: IdentityHandler::Create, name: Some(n) },
            IdentitySubcommand::Show(n) => IdentityTask { handler: IdentityHandler::Show, name: n },
            IdentitySubcommand::List => IdentityTask { handler: IdentityHandler::List, name: None },
            IdentitySubcommand::Default(n) => IdentityTask { handler: IdentityHandler::Default, name: n },
            IdentitySubcommand::Delete(n) => IdentityTask { handler: IdentityHandler::Delete, name: Some(n) },
        }
    }
}

/// The red, green and blue parts of the colour in which resource names are shown.
pub const PRIMARY_RESOURCE_RED: u8 = 82;
pub const PRIMARY_RESOURCE_GREEN: u8 = 199;
pub const PRIMARY_RESOURCE_BLUE: u8 = 234;

/// The decimal digit `d`.
pub open spec fn digit_char(d: nat) -> char {
    if d == 0 { '0' } else if d == 1 { '1' } else if d == 2 { '2' } else if d == 3 { '3' }
    else if d == 4 { '4' } else if d == 5 { '5' } else if d == 6 { '6' } else if d == 7 { '7' }
    else if d == 8 { '8' } else { '9' }
}

/// `n` written in decimal, without leading zeros.
pub open spec fn decimal(n: nat) -> Seq<char>
    decreases n,
{
    if n < 10 {
        seq![digit_char(n)]
    } else {
        decimal(n / 10) + seq![digit_char(n % 10)]
    }
}

/// `text` wrapped in the terminal escape codes of the 24-bit foreground colour
/// `(r, g, b)`: `ESC[38;2;` and the three parts in decimal, separated by `;`,
/// then `m`, the text, and the reset code `ESC[0m`.
pub open spec fn rgb_painted(text: Seq<char>, r: u8, g: u8, b: u8) -> Seq<char> {
    seq!['\x1B', '[', '3', '8', ';', '2', ';'] + decimal(r as nat) + seq![';'] + decimal(g as nat)
        + seq![';'] + decimal(b as nat) + seq!['m'] + text + seq!['\x1B', '[', '0', 'm']
}

/// Relies on colorful's `Colorful::rgb` and the `Display` of its `CString`: the
/// text between the escape codes of a 24-bit foreground colour.
#[verifier::external_body]
fn paint_rgb(text: &str, r: u8, g: u8, b: u8) -> (s: String)
    ensures
        s@ == rgb_painted(text@, r, g, b),
{
    text.rgb(r, g, b).to_string()
}

/// An identity name as shown in messages.
pub open spec fn shown_name(name: Seq<char>) -> Seq<char> {
    rgb_painted(name, PRIMARY_RESOURCE_RED, PRIMARY_RESOURCE_GREEN, PRIMARY_RESOURCE_BLUE)
}

/// Shows an identity name in the colour of resources.
pub fn show_name(name: &str) -> (r: String)
    ensures
        r@ == shown_name(name@),
{
    paint_rgb(name, PRIMARY_RESOURCE_RED, PRIMARY_RESOURCE_GREEN, PRIMARY_RESOURCE_BLUE)
}

/// The conventional name of the default identity.
pub open spec fn default_name() -> Seq<char> {
    seq!['d', 'e', 'f', 'a', 'u', 'l', 't']
}

/// The three messages that report the creation of a default identity, whose
/// name is shown as `shown`.
pub open spec fn provisioning_messages(shown: Seq<char>) -> Seq<Seq<char>> {
    seq![
        "No default identity was found."@,
        "Creating default identity "@ + shown,
        "Setting identity "@ + shown + " as default for local operations...\n"@,
    ]
}

/// The three messages that report the creation of a default identity `name`.
pub open spec fn provisioning_logs(name: Seq<char>) -> Seq<Seq<char>> {
    provisioning_messages(shown_name(name))
}

/// Whether the strings `v` hold the texts `t`, one for one.
pub open spec fn holds_texts(v: Seq<String>, t: Seq<Seq<char>>) -> bool {
    &&& v.len() == t.len()
    &&& forall|i: int| 0 <= i < v.len() ==> #[trigger] v[i]@ == t[i]
}

/// What creating a default identity amounts to: one quiet creation of the
/// identity `create`, the messages to report, and the name to go on with.
#[derive(Clone, Debug, PartialEq, Eq)]
pub struct DefaultIdentityCreation {
    pub create: String,
    pub logs: Vec<String>,
    pub name: String,
}

/// Whether `c` is the creation of the default identity `name`.
pub open spec fn is_creation_of(c: DefaultIdentityCreation, name: Seq<char>) -> bool {
    &&& c.create@ == name
    &&& holds_texts(c.logs@, provisioning_logs(name))
    &&& c.name@ == name
}

/// The messages that report the creation of a default identity whose name is
/// shown as `shown`.
pub fn provisioning_log_lines(shown: &str) -> (r: Vec<String>)
    ensures
        holds_texts(r@, provisioning_messages(shown@)),
{
    let mut logs: Vec<String> = Vec::new();
    logs.push(String::from_str("No default identity was found."));
    logs.push(String::from_str("Creating default identity ").concat(shown));
    logs.push(
        String::from_str("Setting identity ").concat(shown).concat(
            " as default for local operations...\n",
        ),
    );
    logs
}

/// Creates the identity `identity_name` as the default: one quiet creation
/// under that name, three messages, and the name itself to go on with.
pub fn create_default_identity(identity_name: &str) -> (r: DefaultIdentityCreation)
    ensures
        is_creation_of(r, identity_name@),
{
    let shown = show_name(identity_name);
    let logs = provisioning_log_lines(shown.as_str());
    DefaultIdentityCreation {
        create: String::from_str(identity_name),
        logs,
        name: String::from_str(identity_name),
    }
}

/// Whether looking up `name` has to create the default identity first: the
/// default is asked for, and the local state has none.
pub open spec fn needs_default_identity(name: Seq<char>, current_default: Option<String>) -> bool {
    name == default_name() && current_default is None
}

/// The name an identity argument resolves to, and the creation of the default
/// identity where one was needed.
#[derive(Clone, Debug, PartialEq, Eq)]
pub struct NameResolution {
    pub name: String,
    pub provisioning: Option<DefaultIdentityCreation>,
}

/// Resolves an identity argument against the local state, whose default
/// identity is `current_default`. Asking for the default gives the existing
/// default's name, or, where there is none, creates it under the conventional
/// name; any other argument is taken as it is.
pub fn identity_name_parser(identity_name: &str, current_default: &Option<String>) -> (r:
    NameResolution)
    ensures
        identity_name@ == default_name() ==> match current_default {
            Some(n) => r.name@ == n@ && r.provisioning is None,
            None => r.name@ == identity_name@ && (r.provisioning matches Some(c) && is_creation_of(
                c,
                identity_name@,
            )),
        },
        identity_name@ != default_name() ==> r.name@ == identity_name@ && r.provisioning is None,
{
    proof {
        reveal_strlit("default");
    }
    assert("default"@ =~= default_name());
    if same_text(identity_name, "default") {
        match current_default {
            Some(n) => NameResolution { name: n.clone(), provisioning: None },
            None => {
                let c = create_default_identity(identity_name);
                NameResolution { name: String::from_str(identity_name), provisioning: Some(c) }
            },
        }
    } else {
        NameResolution { name: String::from_str(identity_name), provisioning: None }
    }
}

/// The name of the default identity of the local state, or the conventional
/// name where there is none yet.
pub fn default_identity_name(current_default: &Option<String>) -> (r: String)
    ensures
        r@ == match current_default {
            Some(n) => n@,
            None => default_name(),
        },
{
    match current_default {
        Some(n) => n.clone(),
        None => {
            let r = String::from_str("default");
            proof {
                reveal_strlit("default");
            }
            assert(r@ =~= default_name());
            r
        },
    }
}

} // verus!
