//! The settings of a run, taken from the program's arguments.

use vstd::prelude::*;
use vstd::std_specs::iter::IteratorSpec;
use vstd::string::*;

verus! {

/// The settings of a run.
#[derive(Clone, Debug, PartialEq, Eq)]
pub struct Config {
    pub ics_url: String,
    pub google_calendar_name: String,
    pub google_credentials_path: String,
}

/// What a [`Config`] holds, as text.
pub ghost struct ConfigText {
    pub ics_url: Seq<char>,
    pub google_calendar_name: Seq<char>,
    pub google_credentials_path: Seq<char>,
}

impl View for Config {
    type V = ConfigText;

    open spec fn view(&self) -> ConfigText {
        ConfigText {
            ics_url: self.ics_url@,
            google_calendar_name: self.google_calendar_name@,
            google_credentials_path: self.google_credentials_path@,
        }
    }
}

/// The message for arguments that name no feed.
pub open spec fn missing_url_message() -> Seq<char> {
    "Didn't get an ICS URL string"@
}

/// The settings that a list of arguments gives. The first argument is the
/// program's name and counts for nothing; the second is the feed's address and
/// must be there; the third and the fourth are the calendar's name and the path
/// of the credentials, with `Test` and `credentials.json` in their place where
/// they are missing. Further arguments count for nothing.
pub open spec fn built_config(args: Seq<Seq<char>>) -> Option<ConfigText> {
    if args.len() < 2 {
        None
    } else {
        Some(
            ConfigText {
                ics_url: args[1],
                google_calendar_name: if args.len() > 2 {
                    args[2]
                } else {
                    "Test"@
                },
                google_credentials_path: if args.len() > 3 {
                    args[3]
                } else {
                    "credentials.json"@
                },
            },
        )
    }
}

/// The texts of a list of arguments.
pub open spec fn texts_of(args: Seq<String>) -> Seq<Seq<char>> {
    args.map_values(|arg: String| arg@)
}

impl Config {
    /// Takes the settings from the program's arguments. It fails, with the
    /// message [`missing_url_message`], exactly where the feed's address is
    /// missing.
    pub fn build(mut args: impl Iterator<Item = String>) -> (built: Result<Config, &'static str>)
        ensures
            args.obeys_prophetic_iter_laws() ==> match built {
                Ok(config) => built_config(texts_of(args.remaining())) == Some(config@),
                Err(message) => built_config(texts_of(args.remaining())) is None
                    && message@ == missing_url_message(),
            },
    {
        let ghost all = args.remaining();
        args.next();
        let ics_url = match args.next() {
            Some(arg) => arg,
            None => return Err("Didn't get an ICS URL string"),
        };
        let google_calendar_name = match args.next() {
            Some(arg) => arg,
            None => String::from_str("Test"),
        };
        let google_credentials_path = match args.next() {
            Some(arg) => arg,
            None => String::from_str("credentials.json"),
        };
        Ok(Config { ics_url, google_calendar_name, google_credentials_path })
    }
}

} // verus!
