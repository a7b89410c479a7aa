//! The closed set of operations and the tokens that select them.

use crate::text::same_text;
use std::str::FromStr;
use vstd::prelude::*;

verus! {

/// An operation of the tool. The set is closed: exactly these nine exist.
#[derive(Debug, Clone, Copy, PartialEq, Eq, Structural)]
pub enum AppCommand {
    Add,
    Help,
    Init,
    Install,
    Remove,
    Deploy,
    Clone,
    Create,
    Migrate,
}

impl AppCommand {
    /// The token that selects this operation on the command line, as its
    /// characters: `add`, `help`, `init`, `install`, `remove`, `deploy`,
    /// `clone`, `create`, `migrate`.
    pub open spec fn token(self) -> Seq<char> {
        match self {
            AppCommand::Add => seq!['a', 'd', 'd'],
            AppCommand::Help => seq!['h', 'e', 'l', 'p'],
            AppCommand::Init => seq!['i', 'n', 'i', 't'],
            AppCommand::Install => seq!['i', 'n', 's', 't', 'a', 'l', 'l'],
            AppCommand::Remove => seq!['r', 'e', 'm', 'o', 'v', 'e'],
            AppCommand::Deploy => seq!['d', 'e', 'p', 'l', 'o', 'y'],
            AppCommand::Clone => seq!['c', 'l', 'o', 'n', 'e'],
            AppCommand::Create => seq!['c', 'r', 'e', 'a', 't', 'e'],
            AppCommand::Migrate => seq!['m', 'i', 'g', 'r', 'a', 't', 'e'],
        }
    }

    /// The operation that a token selects: the one whose token it is,
    /// character for character, or none. No two operations share a token
    /// (`tokens_distinct`), so the order of the comparisons decides nothing.
    pub open spec fn resolve(token: Seq<char>) -> Option<AppCommand> {
        if token =~= AppCommand::Add.token() {
            Some(AppCommand::Add)
        } else if token =~= AppCommand::Help.token() {
            Some(AppCommand::Help)
        } else if token =~= AppCommand::Init.token() {
            Some(AppCommand::Init)
        } else if token =~= AppCommand::Install.token() {
            Some(AppCommand::Install)
        } else if token =~= AppCommand::Remove.token() {
            Some(AppCommand::Remove)
        } else if token =~= AppCommand::Deploy.token() {
            Some(AppCommand::Deploy)
        } else if token =~= AppCommand::Clone.token() {
            Some(AppCommand::Clone)
        } else if token =~= AppCommand::Create.token() {
            Some(AppCommand::Create)
        } else if token =~= AppCommand::Migrate.token() {
            Some(AppCommand::Migrate)
        } else {
            None
        }
    }

    /// The operation that an argument list selects. The list starts with the
    /// program's name; the token is the argument right after it. A missing
    /// token and an unrecognized one both select nothing.
    pub open spec fn selected(args: Seq<String>) -> Option<AppCommand> {
        if args.len() > 1 {
            Self::resolve(args[1]@)
        } else {
            None
        }
    }

    /// Resolves a token to the operation it names: an exact, case-sensitive
    /// match against the nine tokens. Every other string is unrecognized.
    pub fn parse(s: &str) -> (res: Result<AppCommand, ()>)
        ensures
            res == match Self::resolve(s@) {
                Some(c) => Ok::<AppCommand, ()>(c),
                None => Err::<AppCommand, ()>(()),
            },
    {
        proof {
            Self::tokens_spelled();
        }
        if same_text(s, "add") {
            Ok(AppCommand::Add)
        } else if same_text(s, "help") {
            Ok(AppCommand::Help)
        } else if same_text(s, "init") {
            Ok(AppCommand::Init)
        } else if same_text(s, "install") {
            Ok(AppCommand::Install)
        } else if same_text(s, "remove") {
            Ok(AppCommand::Remove)
        } else if same_text(s, "deploy") {
            Ok(AppCommand::Deploy)
        } else if same_text(s, "clone") {
            Ok(AppCommand::Clone)
        } else if same_text(s, "create") {
            Ok(AppCommand::Create)
        } else if same_text(s, "migrate") {
            Ok(AppCommand::Migrate)
        } else {
            Err(())
        }
    }

    /// The operation selected by the arguments of the process, handed in as
    /// a list that starts with the program's name.
    pub fn current(args: &Vec<String>) -> (found: Option<AppCommand>)
        ensures
            found == Self::selected(args@),
    {
        if args.len() > 1 {
            match Self::parse(args[1].as_str()) {
                Ok(c) => Some(c),
                Err(_) => None,
            }
        } else {
            None
        }
    }

    /// The tokens are the nine literals of the command line.
    pub proof fn tokens_spelled()
        ensures
            AppCommand::Add.token() == "add"@,
            AppCommand::Help.token() == "help"@,
            AppCommand::Init.token() == "init"@,
            AppCommand::Install.token() == "install"@,
            AppCommand::Remove.token() == "remove"@,
            AppCommand::Deploy.token() == "deploy"@,
            AppCommand::Clone.token() == "clone"@,
            AppCommand::Create.token() == "create"@,
            AppCommand::Migrate.token() == "migrate"@,
    {
        reveal_strlit("add");
        reveal_strlit("help");
        reveal_strlit("init");
        reveal_strlit("install");
        reveal_strlit("remove");
        reveal_strlit("deploy");
        reveal_strlit("clone");
        reveal_strlit("create");
        reveal_strlit("migrate");
        assert(AppCommand::Add.token() =~= "add"@);
        assert(AppCommand::Help.token() =~= "help"@);
        assert(AppCommand::Init.token() =~= "init"@);
        assert(AppCommand::Install.token() =~= "install"@);
        assert(AppCommand::Remove.token() =~= "remove"@);
        assert(AppCommand::Deploy.token() =~= "deploy"@);
        assert(AppCommand::Clone.token() =~= "clone"@);
        assert(AppCommand::Create.token() =~= "create"@);
        assert(AppCommand::Migrate.token() =~= "migrate"@);
    }

    /// No two operations share a token.
    pub proof fn tokens_distinct(a: AppCommand, b: AppCommand)
        requires
            a != b,
        ensures
            a.token() != b.token(),
    {
        let x = a.token();
        let y = b.token();
        if x.len() == y.len() {
            assert(x[0] != y[0] || x[1] != y[1] || x[2] != y[2]);
        }
    }

    /// A token resolves to an operation exactly when it is that operation's
    /// token: each of the nine tokens resolves to its own operation and to
    /// no other.
    pub proof fn resolve_exact(token: Seq<char>, c: AppCommand)
        ensures
            Self::resolve(token) == Some(c) <==> token == c.token(),
    {
        if token == c.token() {
            Self::resolve_token(c);
        }
    }

    /// Each operation's own token resolves to it.
    pub proof fn resolve_token(c: AppCommand)
        ensures
            Self::resolve(c.token()) == Some(c),
    {
        if c != AppCommand::Add {
            Self::tokens_distinct(c, AppCommand::Add);
        }
        if c != AppCommand::Help {
            Self::tokens_distinct(c, AppCommand::Help);
        }
        if c != AppCommand::Init {
            Self::tokens_distinct(c, AppCommand::Init);
        }
        if c != AppCommand::Install {
            Self::tokens_distinct(c, AppCommand::Install);
        }
        if c != AppCommand::Remove {
            Self::tokens_distinct(c, AppCommand::Remove);
        }
        if c != AppCommand::Deploy {
            Self::tokens_distinct(c, AppCommand::Deploy);
        }
        if c != AppCommand::Clone {
            Self::tokens_distinct(c, AppCommand::Clone);
        }
        if c != AppCommand::Create {
            Self::tokens_distinct(c, AppCommand::Create);
        }
    }

    /// A token resolves to nothing exactly when it is no operation's token:
    /// every other string, be it a case variant, a prefix or the empty
    /// string, is unrecognized.
    pub proof fn resolve_none(token: Seq<char>)
        ensures
            Self::resolve(token) is None <==> forall|c: AppCommand| c.token() != token,
    {
        if Self::resolve(token) is None {
            assert forall|c: AppCommand| c.token() != token by {
                Self::resolve_exact(token, c);
            }
        } else {
            let c = Self::resolve(token).unwrap();
            Self::resolve_exact(token, c);
        }
    }

    /// A token that resolves to an operation holds lower-case letters only,
    /// and at least three of them. So a token with an upper-case letter, a
    /// space or a digit selects nothing, and neither does the empty token.
    pub proof fn resolved_is_lower_case(token: Seq<char>)
        requires
            Self::resolve(token) is Some,
        ensures
            token.len() >= 3,
            forall|i: int| 0 <= i < token.len() ==> 'a' <= #[trigger] token[i] <= 'z',
    {
    }

    /// An argument list selects nothing both when it has no token and when
    /// its token is unrecognized; the two cannot be told apart.
    pub proof fn selected_none(args: Seq<String>)
        ensures
            Self::selected(args) is None <==> args.len() <= 1 || Self::resolve(args[1]@) is None,
    {
    }
}

impl FromStr for AppCommand {
    type Err = ();

    /// Resolves a token as `AppCommand::parse` does; the failure carries
    /// nothing but that the token is unrecognized.
    fn from_str(s: &str) -> (res: Result<Self, ()>)
        ensures
            res == match Self::resolve(s@) {
                Some(c) => Ok::<AppCommand, ()>(c),
                None => Err::<AppCommand, ()>(()),
            },
    {
        Self::parse(s)
    }
}

} // verus!
