//! The labels of chat lines and notices, in the colours of the terminal.

use vstd::prelude::*;
use vstd::string::*;

verus! {

/// The character that begins every colour code.
pub const ESCAPE: char = '\x1B';

/// The colour code that ends a painted text.
pub const RESET: &'static str = "\x1B[0m";

/// Whether `shown` is `text` as a terminal may have it: plain, or between a
/// colour code, which begins with the escape character, and the code that
/// ends the colour.
pub open spec fn painted(shown: Seq<char>, text: Seq<char>) -> bool {
    shown == text || exists|open: Seq<char>|
        open.len() > 0 && open[0] == ESCAPE && shown == #[trigger] (open + text) + RESET@
}

/// A painted text begins as the text does, or with the escape character.
pub proof fn lemma_painted_begins(shown: Seq<char>, text: Seq<char>)
    requires
        painted(shown, text),
        text.len() > 0,
    ensures
        shown.len() > 0,
        shown[0] == text[0] || shown[0] == ESCAPE,
{
    if shown != text {
        let open = choose|open: Seq<char>|
            open.len() > 0 && open[0] == ESCAPE && shown == #[trigger] (open + text) + RESET@;
        assert(shown[0] == open[0]);
    }
}

/// `Colorize::blue`, written out: the text as the terminal settings of the
/// process have it, plain or between its colour code and the reset code. A
/// text that holds a colour code of its own may come out changed.
#[verifier::external_body]
fn paint_blue(text: &str) -> (r: String)
    ensures
        !text@.contains(ESCAPE) ==> painted(r@, text@),
{
    colored::Colorize::blue(text).to_string()
}

/// `Colorize::cyan`, written out: the text as the terminal settings of the
/// process have it, plain or between its colour code and the reset code. A
/// text that holds a colour code of its own may come out changed.
#[verifier::external_body]
pub(crate) fn paint_cyan(text: &str) -> (r: String)
    ensures
        !text@.contains(ESCAPE) ==> painted(r@, text@),
{
    colored::Colorize::cyan(text).to_string()
}

/// `Colorize::red`, written out: the text as the terminal settings of the
/// process have it, plain or between its colour code and the reset code. A
/// text that holds a colour code of its own may come out changed.
#[verifier::external_body]
fn paint_red(text: &str) -> (r: String)
    ensures
        !text@.contains(ESCAPE) ==> painted(r@, text@),
{
    colored::Colorize::red(text).to_string()
}

/// `Colorize::green`, written out: the text as the terminal settings of the
/// process have it, plain or between its colour code and the reset code. A
/// text that holds a colour code of its own may come out changed.
#[verifier::external_body]
fn paint_green(text: &str) -> (r: String)
    ensures
        !text@.contains(ESCAPE) ==> painted(r@, text@),
{
    colored::Colorize::green(text).to_string()
}

/// The labels under which chat lines travel and notices are shown.
#[derive(Debug, Clone, PartialEq, Eq)]
pub struct Labels {
    /// The label of a line for everyone.
    pub everyone: String,
    /// The label of a line for one user.
    pub you: String,
    /// The label of a notice of an error.
    pub error: String,
    /// The label of a notice of an event.
    pub info: String,
}

/// What a `Labels` holds, as mathematical values.
pub struct LabelsView {
    pub everyone: Seq<char>,
    pub you: Seq<char>,
    pub error: Seq<char>,
    pub info: Seq<char>,
}

impl View for Labels {
    type V = LabelsView;

    open spec fn view(&self) -> LabelsView {
        LabelsView { everyone: self.everyone@, you: self.you@, error: self.error@, info: self.info@ }
    }
}

impl Labels {
    /// The labels without colours.
    pub fn plain() -> (r: Labels)
        ensures
            r@ == (LabelsView {
                everyone: "Всем"@,
                you: "Вам"@,
                error: "Ошибка:"@,
                info: "ИНФО:"@,
            }),
    {
        Labels {
            everyone: String::from_str("Всем"),
            you: String::from_str("Вам"),
            error: String::from_str("Ошибка:"),
            info: String::from_str("ИНФО:"),
        }
    }

    /// The labels in the colours of the terminal: blue for everyone, cyan for
    /// one user, red for an error, green for an event. Each is its word,
    /// plain or between colour codes, as the terminal settings have it.
    pub fn paint() -> (r: Labels)
        ensures
            painted(r.everyone@, "Всем"@),
            painted(r.you@, "Вам"@),
            painted(r.error@, "Ошибка:"@),
            painted(r.info@, "ИНФО:"@),
    {
        proof {
            reveal_strlit("Всем");
            reveal_strlit("Вам");
            reveal_strlit("Ошибка:");
            reveal_strlit("ИНФО:");
        }
        Labels {
            everyone: paint_blue("Всем"),
            you: paint_cyan("Вам"),
            error: paint_red("Ошибка:"),
            info: paint_green("ИНФО:"),
        }
    }
}

} // verus!
