//! The text shown on the console: prompts, role labels and wrapped messages.
//!
//! Labels are styled by `console` and long texts are wrapped by `textwrap`.
//! Whether a style shows depends on the terminal, so a styled label is one
//! of two texts: the label alone, or the label between the commands that
//! switch the style on and the command that switches it off.

use crate::api::{Message, Role};
use vstd::prelude::*;

verus! {

/// The number of columns to which the client wraps what it shows.
pub const LINE_WIDTH: usize = 72;

/// What `textwrap::wrap` makes of a text at a width: the lines, in order.
pub uninterp spec fn wrapped_lines(text: Seq<char>, width: usize) -> Seq<Seq<char>>;

/// The commands that switch on bold and underlined.
pub open spec fn bold_underlined_on() -> Seq<char> {
    "\x1b[1m\x1b[4m"@
}

/// The commands that switch on green, bold and underlined.
pub open spec fn green_bold_underlined_on() -> Seq<char> {
    "\x1b[32m\x1b[1m\x1b[4m"@
}

/// The commands that switch on blue, bold and underlined.
pub open spec fn blue_bold_underlined_on() -> Seq<char> {
    "\x1b[34m\x1b[1m\x1b[4m"@
}

/// The command that switches every style off.
pub open spec fn style_off() -> Seq<char> {
    "\x1b[0m"@
}

/// Whether `styled` shows `text` in the style that `on` switches on: it is
/// the text alone where the terminal shows no styles, and else the text
/// between `on` and the command that switches the style off.
pub open spec fn is_styled(on: Seq<char>, text: Seq<char>, styled: Seq<char>) -> bool {
    styled == text || styled == on + text + style_off()
}

/// The commands that switch on the style of a role's label: bold and
/// underlined, for the user also green, for the assistant also blue.
pub open spec fn role_style_on(role: Role) -> Seq<char> {
    match role {
        Role::System => bold_underlined_on(),
        Role::User => green_bold_underlined_on(),
        Role::Assistant => blue_bold_underlined_on(),
    }
}

/// The texts of a sequence of strings, in order.
pub open spec fn line_views(lines: Seq<String>) -> Seq<Seq<char>> {
    lines.map_values(|line: String| line@)
}

/// Lines as one text, with a line break between each two.
pub open spec fn joined(lines: Seq<Seq<char>>) -> Seq<char>
    decreases lines.len(),
{
    if lines.len() == 0 {
        Seq::empty()
    } else if lines.len() == 1 {
        lines[0]
    } else {
        joined(lines.drop_last()) + "\n"@ + lines.last()
    }
}

/// The name under which a role is shown.
pub open spec fn role_label(role: Role) -> Seq<char> {
    match role {
        Role::System => "System"@,
        Role::User => "User"@,
        Role::Assistant => "Assistant"@,
    }
}

/// A label and, from the next line on, the lines of a text.
pub open spec fn titled_text(label: Seq<char>, lines: Seq<Seq<char>>) -> Seq<char> {
    label + "\n"@ + joined(lines)
}

/// A prompt and, on the next line, the mark after which the user writes.
pub open spec fn prompt_text(label: Seq<char>) -> Seq<char> {
    label + "\n> "@
}

/// The prompt for a line of input, with the default answer in brackets where
/// there is one. Without a prompt only the default is shown.
pub open spec fn input_prompt_text(
    prompt: Seq<char>,
    label: Seq<char>,
    default: Option<Seq<char>>,
) -> Seq<char> {
    match default {
        Some(default) => if prompt.len() == 0 {
            "["@ + default + "]\n> "@
        } else {
            label + " ["@ + default + "]\n> "@
        },
        None => label + "\n> "@,
    }
}

/// The text that an optional string slice holds.
pub open spec fn optional_str(text: Option<&str>) -> Option<Seq<char>> {
    match text {
        Some(text) => Some(text@),
        None => None,
    }
}

/// Whether a text holds no line break.
pub open spec fn is_one_line(text: Seq<char>) -> bool {
    forall|i: int| 0 <= i < text.len() ==> text[i] != '\n'
}

/// The label of a role is one line, whether its style shows or not.
pub proof fn lemma_role_label_is_one_line(role: Role, label: Seq<char>)
    requires
        is_styled(role_style_on(role), role_label(role), label),
    ensures
        is_one_line(label),
{
    reveal_strlit("System");
    reveal_strlit("User");
    reveal_strlit("Assistant");
    reveal_strlit("\x1b[1m\x1b[4m");
    reveal_strlit("\x1b[32m\x1b[1m\x1b[4m");
    reveal_strlit("\x1b[34m\x1b[1m\x1b[4m");
    reveal_strlit("\x1b[0m");
    assert(is_one_line(role_label(role)));
    assert(is_one_line(role_style_on(role)));
    assert(is_one_line(style_off()));
}

/// `console::style` with `bold` and `underlined`, written out by `format!`.
/// Where colours are enabled for the standard output, the text comes out
/// after the codes of bold (1) and underlined (4) and before the reset code
/// (0); where they are not, it comes out alone.
#[verifier::external_body]
fn bold_underlined(text: &str) -> (styled: String)
    ensures
        is_styled(bold_underlined_on(), text@, styled@),
{
    format!("{}", console::style(text).bold().underlined())
}

/// `console::style` with `green`, `bold` and `underlined`, written out by
/// `format!`. As `bold_underlined`, with the code of the green foreground
/// (32) before the other two.
#[verifier::external_body]
fn green_bold_underlined(text: &str) -> (styled: String)
    ensures
        is_styled(green_bold_underlined_on(), text@, styled@),
{
    format!("{}", console::style(text).green().bold().underlined())
}

/// `console::style` with `blue`, `bold` and `underlined`, written out by
/// `format!`. As `bold_underlined`, with the code of the blue foreground
/// (34) before the other two.
#[verifier::external_body]
fn blue_bold_underlined(text: &str) -> (styled: String)
    ensures
        is_styled(blue_bold_underlined_on(), text@, styled@),
{
    format!("{}", console::style(text).blue().bold().underlined())
}

/// `textwrap::wrap` with a width: breaks a text into lines of at most that
/// many columns where it can. The lines are a function of the text and the
/// width alone.
#[verifier::external_body]
fn wrap_lines(text: &str, width: usize) -> (lines: Vec<String>)
    ensures
        line_views(lines@) == wrapped_lines(text@, width),
{
    textwrap::wrap(text, width).into_iter().map(|line| line.into_owned()).collect()
}

/// Joins lines with a line break between each two.
pub fn join_lines(lines: &Vec<String>) -> (text: String)
    ensures
        text@ == joined(line_views(lines@)),
{
    let mut text = String::new();
    let mut i: usize = 0;
    while i < lines.len()
        invariant
            i <= lines.len(),
            text@ == joined(line_views(lines@).take(i as int)),
        decreases lines.len() - i,
    {
        let ghost before = line_views(lines@).take(i as int);
        let ghost now = line_views(lines@).take(i + 1);
        proof {
            assert(now.drop_last() =~= before);
            assert(now.last() == lines@[i as int]@);
        }
        if i > 0 {
            text.append("\n");
        } else {
            assert(joined(before) =~= Seq::<char>::empty());
            assert(text@ + lines@[i as int]@ =~= lines@[i as int]@);
        }
        text.append(lines[i].as_str());
        i += 1;
    }
    assert(line_views(lines@).take(lines@.len() as int) =~= line_views(lines@));
    text
}

/// Puts a label over the lines of a text.
pub fn titled(label: &str, lines: &Vec<String>) -> (text: String)
    ensures
        text@ == titled_text(label@, line_views(lines@)),
{
    let mut text = label.to_owned();
    text.append("\n");
    let body = join_lines(lines);
    text.append(body.as_str());
    text
}

/// Puts together the prompt for a line of input from the prompt as it is
/// shown and the default answer.
pub fn input_prompt(prompt: &str, label: &str, default: Option<&str>) -> (text: String)
    ensures
        text@ == input_prompt_text(prompt@, label@, optional_str(default)),
{
    match default {
        Some(default) => {
            let mut text = if prompt.is_empty() {
                "[".to_owned()
            } else {
                let mut text = label.to_owned();
                text.append(" [");
                text
            };
            text.append(default);
            text.append("]\n> ");
            text
        },
        None => {
            let mut text = label.to_owned();
            text.append("\n> ");
            text
        },
    }
}

/// The label of a role as it is shown: bold and underlined, the user's in
/// green and the assistant's in blue.
pub fn format_role(role: &Role) -> (label: String)
    ensures
        is_styled(role_style_on(*role), role_label(*role), label@),
{
    match role {
        Role::System => bold_underlined("System"),
        Role::User => green_bold_underlined("User"),
        Role::Assistant => blue_bold_underlined("Assistant"),
    }
}

/// A message as it is shown: the label of its role, and from the next line
/// on its content, wrapped to `width` columns.
pub fn format_message(message: &Message, width: usize) -> (text: String)
    ensures
        exists|label: Seq<char>|
            is_styled(role_style_on(message.role), role_label(message.role), label) && text@
                == titled_text(label, wrapped_lines(message.content@, width)),
{
    let label = format_role(&message.role);
    let lines = wrap_lines(message.content.as_str(), width);
    let text = titled(label.as_str(), &lines);
    assert(is_styled(role_style_on(message.role), role_label(message.role), label@) && text@
        == titled_text(label@, wrapped_lines(message.content@, width)));
    text
}

/// How the client shows its prompts.
pub struct LLMTheme;

impl LLMTheme {
    /// A prompt: bold and underlined, with the mark for the answer on the
    /// next line.
    pub fn format_prompt(&self, prompt: &str) -> (text: String)
        ensures
            exists|label: Seq<char>|
                is_styled(bold_underlined_on(), prompt@, label) && text@ == prompt_text(label),
    {
        let mut text = bold_underlined(prompt);
        assert(is_styled(bold_underlined_on(), prompt@, text@) && text@ + "\n> "@
            == prompt_text(text@));
        text.append("\n> ");
        text
    }

    /// The prompt for a line of input: green, bold and underlined, then the
    /// default answer in brackets where there is one, with the mark for the
    /// answer on the next line.
    pub fn format_input_prompt(&self, prompt: &str, default: Option<&str>) -> (text: String)
        ensures
            exists|label: Seq<char>|
                is_styled(green_bold_underlined_on(), prompt@, label) && text@
                    == input_prompt_text(prompt@, label, optional_str(default)),
    {
        let label = green_bold_underlined(prompt);
        let text = input_prompt(prompt, label.as_str(), default);
        assert(is_styled(green_bold_underlined_on(), prompt@, label@) && text@
            == input_prompt_text(prompt@, label@, optional_str(default)));
        text
    }

    /// A prompt with the answer that was given: the prompt green, bold and
    /// underlined, and from the next line on the answer, wrapped.
    pub fn format_input_prompt_selection(&self, prompt: &str, sel: &str) -> (text: String)
        ensures
            exists|label: Seq<char>|
                is_styled(green_bold_underlined_on(), prompt@, label) && text@ == titled_text(
                    label,
                    wrapped_lines(sel@, LINE_WIDTH),
                ),
    {
        let label = green_bold_underlined(prompt);
        let lines = wrap_lines(sel, LINE_WIDTH);
        let text = titled(label.as_str(), &lines);
        assert(is_styled(green_bold_underlined_on(), prompt@, label@) && text@ == titled_text(
            label@,
            wrapped_lines(sel@, LINE_WIDTH),
        ));
        text
    }
}

} // verus!
