//! The subcommands that the command line knows, and their names.

use vstd::prelude::*;
use vstd::std_specs::convert::FromSpecImpl;

verus! {

/// A subcommand of the tool.
#[derive(Clone, Copy, Debug, PartialEq, Eq, Structural)]
pub enum Commands {
    Generate,
    New,
    Unspecified,
}

/// The subcommand that the word `word` names; any word but the two names
/// stands for none.
pub open spec fn named(word: Seq<char>) -> Commands {
    if word == "generate"@ {
        Commands::Generate
    } else if word == "new"@ {
        Commands::New
    } else {
        Commands::Unspecified
    }
}

impl Commands {
    /// The word that this subcommand shows as.
    pub open spec fn word(self) -> Seq<char> {
        match self {
            Commands::Generate => "generate"@,
            Commands::New => "new"@,
            Commands::Unspecified => "error!!!"@,
        }
    }

    /// The word that this subcommand shows as.
    pub fn name(&self) -> (text: &'static str)
        ensures
            text@ == self.word(),
    {
        match self {
            Commands::Generate => "generate",
            Commands::New => "new",
            Commands::Unspecified => "error!!!",
        }
    }
}

impl<'a> From<&'a str> for Commands {
    fn from(s: &'a str) -> (command: Commands) {
        let word = s.to_owned();
        if word == "generate".to_owned() {
            Commands::Generate
        } else if word == "new".to_owned() {
            Commands::New
        } else {
            Commands::Unspecified
        }
    }
}

impl<'a> FromSpecImpl<&'a str> for Commands {
    open spec fn obeys_from_spec() -> bool {
        true
    }

    open spec fn from_spec(s: &'a str) -> Commands {
        named(s@)
    }
}

/// The word that a subcommand shows as names that subcommand again.
pub proof fn lemma_word_names_its_command(command: Commands)
    ensures
        named(command.word()) == command,
{
    reveal_strlit("generate");
    reveal_strlit("new");
    reveal_strlit("error!!!");
    assert("generate"@.len() == 8);
    assert("new"@.len() == 3);
    assert("error!!!"@[0] == 'e');
    assert("generate"@[0] == 'g');
}

} // verus!
