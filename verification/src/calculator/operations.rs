//! The expression under the keys, and the reading of the evaluator's
//! answers.

use super::operator::Operator;
use crate::text::{
    chars_of, contains, holds, last_index_of, replace_char, rfind, skip_whitespace,
    skip_whitespace_back, starts_with, trim, trim_start,
};
use vstd::prelude::*;

verus! {

/// The calculator's entry: the expression being typed, the outcome of its
/// last evaluation, and the number format in use.
#[derive(Debug)]
pub struct Calculator {
    pub expression: String,
    pub outcome: String,
    pub decimal_comma: bool,
}

/// A calculator with its texts as sequences of characters.
pub struct CalculatorView {
    pub expression: Seq<char>,
    pub outcome: Seq<char>,
    pub decimal_comma: bool,
}

impl View for Calculator {
    type V = CalculatorView;

    open spec fn view(&self) -> CalculatorView {
        CalculatorView {
            expression: self.expression@,
            outcome: self.outcome@,
            decimal_comma: self.decimal_comma,
        }
    }
}

/// What a key press asks of the application.
#[derive(Debug, Clone, Copy, PartialEq, Eq, Structural)]
pub enum Message {
    /// Evaluate the expression.
    Evaluate,
}

/// Whether a character may stand in a typed expression: a digit, one of the
/// signs `+ - * ÷ % .`, or a backspace.
pub open spec fn is_expression_char(c: char) -> bool {
    ||| '0' <= c <= '9'
    ||| c == '+'
    ||| c == '-'
    ||| c == '*'
    ||| c == '÷'
    ||| c == '%'
    ||| c == '.'
    ||| c == '\u{8}'
}

/// Whether a text may replace the expression as a whole.
pub open spec fn is_expression_input(text: Seq<char>) -> bool {
    forall|i: int| 0 <= i < text.len() ==> is_expression_char(#[trigger] text[i])
}

/// Whether a text may replace the expression as a whole.
pub fn accepts_input(input: &str) -> (yes: bool)
    ensures
        yes == is_expression_input(input@),
{
    let chars = chars_of(input);
    let mut at: usize = 0;
    while at < chars.len()
        invariant
            at <= chars.len(),
            chars@ == input@,
            forall|i: int| 0 <= i < at ==> is_expression_char(#[trigger] chars@[i]),
        decreases chars.len() - at,
    {
        let c = chars[at];
        let accepted = ('0' <= c && c <= '9') || c == '+' || c == '-' || c == '*' || c == '÷'
            || c == '%' || c == '.' || c == '\u{8}';
        if !accepted {
            return false;
        }
        at += 1;
    }
    true
}

impl CalculatorView {
    /// The entry after a key other than a digit, and what the key asks for.
    ///
    /// The clear key empties expression and outcome, the equal key asks for
    /// an evaluation, the backspace key takes the last character away, and
    /// every other key appends its sign.
    pub open spec fn after_key(self, key: Operator) -> (CalculatorView, Option<Message>) {
        match key {
            Operator::Clear => (self.cleared(), None),
            Operator::Equal => (self, Some(Message::Evaluate)),
            Operator::Backspace => (
                CalculatorView {
                    expression: if self.expression.len() > 0 {
                        self.expression.drop_last()
                    } else {
                        self.expression
                    },
                    ..self
                },
                None,
            ),
            _ => (
                CalculatorView { expression: self.expression + key.expression_text(), ..self },
                None,
            ),
        }
    }

    /// The entry with expression and outcome emptied.
    pub open spec fn cleared(self) -> CalculatorView {
        CalculatorView { expression: Seq::empty(), outcome: Seq::empty(), ..self }
    }
}

impl Calculator {
    /// An empty entry that writes numbers with a decimal point.
    pub fn new() -> (calculator: Self)
        ensures
            calculator@ == (CalculatorView {
                expression: Seq::empty(),
                outcome: Seq::empty(),
                decimal_comma: false,
            }),
    {
        Calculator { expression: String::new(), outcome: String::new(), decimal_comma: false }
    }

    /// Appends the sign of a key to the expression.
    pub fn add_operator(&mut self, operator: Operator)
        ensures
            final(self)@ == (CalculatorView {
                expression: old(self)@.expression + operator.expression_text(),
                ..old(self)@
            }),
    {
        self.expression.append(operator.expression());
    }

    /// Appends a number, given as its decimal text, to the expression.
    pub fn on_number_press(&mut self, number: &str)
        ensures
            final(self)@ == (CalculatorView {
                expression: old(self)@.expression + number@,
                ..old(self)@
            }),
    {
        self.expression.append(number);
    }

    /// Acts on a key other than a digit: see [`CalculatorView::after_key`].
    pub fn on_operator_press(&mut self, operator: &Operator) -> (message: Option<Message>)
        ensures
            (final(self)@, message) == old(self)@.after_key(*operator),
    {
        match operator {
            Operator::Clear => {
                self.clear();
                None
            },
            Operator::Equal => Some(Message::Evaluate),
            Operator::Backspace => {
                let _ = self.expression.pop();
                None
            },
            Operator::Add => {
                self.add_operator(Operator::Add);
                None
            },
            Operator::Subtract => {
                self.add_operator(Operator::Subtract);
                None
            },
            Operator::Multiply => {
                self.add_operator(Operator::Multiply);
                None
            },
            Operator::Divide => {
                self.add_operator(Operator::Divide);
                None
            },
            Operator::Modulus => {
                self.add_operator(Operator::Modulus);
                None
            },
            Operator::Point => {
                self.add_operator(Operator::Point);
                None
            },
            Operator::ParenthesesOpen => {
                self.add_operator(Operator::ParenthesesOpen);
                None
            },
            Operator::ParenthesesClose => {
                self.add_operator(Operator::ParenthesesClose);
                None
            },
            Operator::Power => {
                self.add_operator(Operator::Power);
                None
            },
            Operator::SquareRoot => {
                self.add_operator(Operator::SquareRoot);
                None
            },
        }
    }

    /// Empties expression and outcome.
    pub fn clear(&mut self)
        ensures
            final(self)@ == old(self)@.cleared(),
    {
        self.expression.clear();
        self.outcome = String::new();
    }

    /// Replaces the expression by a typed text, if every character of the
    /// text may stand in an expression; otherwise nothing changes.
    pub fn on_input(&mut self, input: String)
        ensures
            final(self)@ == (if is_expression_input(input@) {
                CalculatorView { expression: input@, ..old(self)@ }
            } else {
                old(self)@
            }),
    {
        if accepts_input(input.as_str()) {
            self.expression = input;
        }
    }

    /// The entry as the history shows it: its outcome.
    pub fn to_string(&self) -> (shown: String)
        ensures
            shown@ == self@.outcome,
    {
        self.outcome.clone()
    }

    /// Whether two entries hold the same texts and the same number format.
    pub fn same_as(&self, other: &Calculator) -> (same: bool)
        ensures
            same == (self@ == other@),
    {
        self.expression == other.expression && self.outcome == other.outcome
            && self.decimal_comma == other.decimal_comma
    }
}

impl Clone for Calculator {
    fn clone(&self) -> (copy: Self)
        ensures
            copy@ == self@,
    {
        Calculator {
            expression: self.expression.clone(),
            outcome: self.outcome.clone(),
            decimal_comma: self.decimal_comma,
        }
    }
}

impl PartialEq for Calculator {
    fn eq(&self, other: &Self) -> (same: bool) {
        self.same_as(other)
    }
}

impl vstd::std_specs::cmp::PartialEqSpecImpl for Calculator {
    open spec fn obeys_eq_spec() -> bool {
        true
    }

    open spec fn eq_spec(&self, other: &Self) -> bool {
        self@ == other@
    }
}

impl Default for Calculator {
    fn default() -> (calculator: Self)
        ensures
            calculator@ == (CalculatorView {
                expression: Seq::empty(),
                outcome: Seq::empty(),
                decimal_comma: false,
            }),
    {
        Calculator::new()
    }
}

/// The value in an outcome: what follows the last `=`, or else the last
/// `≈`, without the white space around it; the whole outcome where neither
/// sign occurs.
pub open spec fn value_of(outcome: Seq<char>) -> Seq<char> {
    match last_index_of(outcome, '=') {
        Some(at) => trim(outcome.skip(at + 1)),
        None => match last_index_of(outcome, '≈') {
            Some(at) => trim(outcome.skip(at + 1)),
            None => outcome,
        },
    }
}

/// Extracts the value from an outcome: see [`value_of`].
pub fn extract_value(expression: &str) -> (value: &str)
    ensures
        value@ == value_of(expression@),
{
    let chars = chars_of(expression);
    let end = chars.len();
    let sign = match rfind(&chars, 0, end, '=') {
        Some(at) => Some(at),
        None => rfind(&chars, 0, end, '≈'),
    };
    assert(chars@.subrange(0, end as int) =~= expression@);
    match sign {
        Some(at) => {
            let from = skip_whitespace(&chars, at + 1, end);
            let to = skip_whitespace_back(&chars, from, end);
            expression.substring_char(from, to)
        },
        None => expression,
    }
}

/// The leading lines of the evaluator's output that carry no answer.
pub const SKIPPED_LINES: usize = 2;

/// The colour and cursor codes that the evaluator may put into a line.
pub const ESCAPE_CODES: &'static str = "\\x1B\\[(?:;?[0-9]{1,3})+[mGK]";

/// The text that `regex::Regex::replace_all` makes of a text for a pattern
/// and a replacement; `None` where `regex::Regex::new` refuses the pattern,
/// as invalid or as too large.
pub uninterp spec fn regex_replaced(
    pattern: Seq<char>,
    text: Seq<char>,
    replacement: Seq<char>,
) -> Option<Seq<char>>;

/// `regex::Regex::replace_all`, on the expression that `regex::Regex::new`
/// makes of the pattern: every match that does not overlap an earlier one
/// is replaced. The contract only names the result, which depends on the
/// three texts alone; it is `None` exactly where the pattern is refused.
#[verifier::external_body]
fn replace_all(pattern: &str, text: &str, replacement: &str) -> (replaced: Option<String>)
    ensures
        (match replaced {
            Some(out) => regex_replaced(pattern@, text@, replacement@) == Some(out@),
            None => regex_replaced(pattern@, text@, replacement@) is None,
        }),
{
    match regex::Regex::new(pattern) {
        Ok(expression) => Some(expression.replace_all(text, replacement).into_owned()),
        Err(_) => None,
    }
}

/// A line without its colour and cursor codes.
pub open spec fn without_escapes(line: Seq<char>) -> Option<Seq<char>> {
    regex_replaced(ESCAPE_CODES@, line, ""@)
}

/// A line without its colour and cursor codes; `None` where the pattern of
/// the codes were no regular expression.
pub fn strip_escapes(line: &str) -> (clean: Option<String>)
    ensures
        (match clean {
            Some(text) => without_escapes(line@) == Some(text@),
            None => without_escapes(line@) is None,
        }),
{
    replace_all(ESCAPE_CODES, line, "")
}

/// Whether a line reports an error or a warning instead of an answer.
pub open spec fn has_issue(line: Seq<char>) -> bool {
    "error"@.is_prefix_of(line) || "warning"@.is_prefix_of(line)
}

/// Whether a line reports an error or a warning instead of an answer.
pub fn reports_issue(line: &str) -> (yes: bool)
    ensures
        yes == has_issue(line@),
{
    let chars = chars_of(line);
    let error = chars_of("error");
    let warning = chars_of("warning");
    starts_with(&chars, 0, chars.len(), &error) || starts_with(&chars, 0, chars.len(), &warning)
}

/// The place of the parenthesis that closes the group which is open at
/// `from`, where `depth` groups are open there: parentheses that open
/// after `from` are closed first.
pub open spec fn group_end(line: Seq<char>, from: int, depth: nat) -> Option<int>
    decreases line.len() - from,
{
    if from < 0 || from >= line.len() {
        None
    } else if line[from] == '(' {
        group_end(line, from + 1, depth + 1)
    } else if line[from] == ')' {
        if depth <= 1 {
            Some(from)
        } else {
            group_end(line, from + 1, (depth - 1) as nat)
        }
    } else {
        group_end(line, from + 1, depth)
    }
}

/// A line without the parenthesised group it begins with, and without the
/// white space after the group; the line itself where it begins with no
/// group or its group is never closed.
pub open spec fn without_leading_group(line: Seq<char>) -> Seq<char> {
    if line.len() > 0 && line[0] == '(' {
        match group_end(line, 1, 1) {
            Some(at) => trim_start(line.skip(at + 1)),
            None => line,
        }
    } else {
        line
    }
}

/// Where the answer begins in a line: at the last `≈`, or else just after
/// the last `=`.
pub open spec fn answer_start(line: Seq<char>) -> Option<int> {
    match last_index_of(line, '≈') {
        Some(at) => Some(at),
        None => match last_index_of(line, '=') {
            Some(at) => Some(at + 1),
            None => None,
        },
    }
}

/// A text without the pair of parentheses that encloses it, if one does.
pub open spec fn without_brackets(text: Seq<char>) -> Seq<char> {
    if text.len() > 0 && text.first() == '(' && text.last() == ')' {
        text.subrange(1, text.len() - 1)
    } else {
        text
    }
}

/// The answer in a line of the evaluator that is free of codes: what
/// follows the leading group from the answer's start on, without leading
/// white space and enclosing parentheses, its minus signs written as
/// hyphens. A line with neither `≈` nor `=` has none.
pub open spec fn answer_of(line: Seq<char>) -> Option<Seq<char>> {
    let rest = without_leading_group(line);
    match answer_start(rest) {
        Some(at) => Some(
            replace_char(without_brackets(trim_start(rest.skip(at))), '\u{2212}', '-'),
        ),
        None => None,
    }
}

/// The place of the parenthesis that closes the group a line begins with.
fn leading_group_end(chars: &Vec<char>) -> (end: Option<usize>)
    requires
        chars.len() > 0,
    ensures
        (match end {
            Some(at) => 1 <= at < chars.len() && group_end(chars@, 1, 1) == Some(at as int),
            None => group_end(chars@, 1, 1) is None,
        }),
{
    let mut at: usize = 1;
    let mut depth: usize = 1;
    while at < chars.len()
        invariant
            1 <= at <= chars.len(),
            1 <= depth <= at,
            group_end(chars@, at as int, depth as nat) == group_end(chars@, 1, 1),
        decreases chars.len() - at,
    {
        let c = chars[at];
        if c == '(' {
            depth += 1;
        } else if c == ')' {
            if depth == 1 {
                return Some(at);
            }
            depth -= 1;
        }
        at += 1;
    }
    None
}

/// The answer in a line of the evaluator that is free of codes: see
/// [`answer_of`].
pub fn answer(line: &str) -> (found: Option<String>)
    ensures
        (match found {
            Some(text) => answer_of(line@) == Some(text@),
            None => answer_of(line@) is None,
        }),
{
    let chars = chars_of(line);
    let end = chars.len();
    assert(chars@.subrange(0, end as int) =~= line@);
    let mut start: usize = 0;
    if end > 0 && chars[0] == '(' {
        match leading_group_end(&chars) {
            Some(at) => {
                start = skip_whitespace(&chars, at + 1, end);
            },
            None => {},
        }
    }
    let ghost rest = chars@.subrange(start as int, end as int);
    let cut = match rfind(&chars, start, end, '≈') {
        Some(at) => at,
        None => match rfind(&chars, start, end, '=') {
            Some(at) => at + 1,
            None => {
                return None;
            },
        },
    };
    assert(rest.skip(cut - start) =~= chars@.subrange(cut as int, end as int));
    let mut from = skip_whitespace(&chars, cut, end);
    let mut to = end;
    if from < end && chars[from] == '(' && chars[end - 1] == ')' {
        from += 1;
        to -= 1;
    }
    let ghost bare = chars@.subrange(from as int, to as int);
    let mut text = String::new();
    let mut at = from;
    while at < to
        invariant
            from <= at <= to <= chars.len(),
            bare == chars@.subrange(from as int, to as int),
            text@ == replace_char(bare.take(at - from), '\u{2212}', '-'),
        decreases to - at,
    {
        let c = chars[at];
        if c == '\u{2212}' {
            text.push('-');
        } else {
            text.push(c);
        }
        at += 1;
    }
    Some(text)
}

/// What one more line of the evaluator's output means for the outcome.
pub enum LineReading {
    /// The line carried an answer; this is the outcome so far.
    Continue(Seq<char>),
    /// The line is blank: the outcome is complete.
    Finished,
    /// The line reports an issue or carries no answer: there is no
    /// outcome.
    Failed,
}

/// The reading of a line that is trimmed, not empty and free of codes,
/// given the outcome so far: a line that reports an issue or carries no
/// answer fails; the answer of any other line is added to the outcome,
/// after a space where the outcome is not empty.
pub open spec fn clean_line_reading(output: Seq<char>, clean: Seq<char>) -> LineReading {
    if has_issue(clean) {
        LineReading::Failed
    } else {
        match answer_of(clean) {
            None => LineReading::Failed,
            Some(answer) => LineReading::Continue(
                (if output.len() > 0 {
                    output.push(' ')
                } else {
                    output
                }) + answer,
            ),
        }
    }
}

/// The reading of one line after the skipped ones, given the outcome so
/// far: a blank line completes the outcome; any other line is trimmed,
/// freed of its codes and read as [`clean_line_reading`] says.
pub open spec fn line_reading(output: Seq<char>, line: Seq<char>) -> LineReading {
    let text = trim(line);
    if text.len() == 0 {
        LineReading::Finished
    } else {
        match without_escapes(text) {
            None => LineReading::Failed,
            Some(clean) => clean_line_reading(output, clean),
        }
    }
}

/// Whether reading goes on after a line, is complete, or has failed.
#[derive(Debug, Clone, Copy, PartialEq, Eq, Structural)]
pub enum Verdict {
    Continue,
    Finished,
    Failed,
}

/// What an executed reading left behind says the same as a reading.
pub open spec fn reading_done(
    reading: LineReading,
    before: Seq<char>,
    after: Seq<char>,
    verdict: Verdict,
) -> bool {
    match reading {
        LineReading::Continue(next) => verdict == Verdict::Continue && after == next,
        LineReading::Finished => verdict == Verdict::Finished && after == before,
        LineReading::Failed => verdict == Verdict::Failed && after == before,
    }
}

/// Reads a line that is trimmed, not empty and free of codes into the
/// outcome: see [`clean_line_reading`]. Where reading does not go on, the
/// outcome is left as it was.
pub fn read_clean_line(output: &mut String, clean: &str) -> (verdict: Verdict)
    ensures
        reading_done(
            clean_line_reading(old(output)@, clean@),
            old(output)@,
            final(output)@,
            verdict,
        ),
{
    if reports_issue(clean) {
        return Verdict::Failed;
    }
    match answer(clean) {
        None => Verdict::Failed,
        Some(text) => {
            if !output.as_str().is_empty() {
                output.push(' ');
            }
            output.append(text.as_str());
            Verdict::Continue
        },
    }
}

/// Reads one line after the skipped ones into the outcome: see
/// [`line_reading`]. Where reading does not go on, the outcome is left as
/// it was.
pub fn read_line(output: &mut String, line: &str) -> (verdict: Verdict)
    ensures
        reading_done(line_reading(old(output)@, line@), old(output)@, final(output)@, verdict),
{
    let chars = chars_of(line);
    let from = skip_whitespace(&chars, 0, chars.len());
    let to = skip_whitespace_back(&chars, from, chars.len());
    assert(chars@.subrange(0, chars@.len() as int) =~= line@);
    if from == to {
        return Verdict::Finished;
    }
    let text = line.substring_char(from, to);
    match strip_escapes(text) {
        None => Verdict::Failed,
        Some(clean) => read_clean_line(output, clean.as_str()),
    }
}

/// The texts of these strings, in order.
pub open spec fn texts(lines: Seq<String>) -> Seq<Seq<char>> {
    Seq::new(lines.len(), |i: int| lines[i]@)
}

/// The outcome of reading the lines from `from` on, given the outcome so
/// far: reading ends with the first blank line or with the last line, and
/// fails with the first line that fails.
pub open spec fn lines_reading(output: Seq<char>, lines: Seq<Seq<char>>, from: int) -> Option<
    Seq<char>,
>
    decreases lines.len() - from,
{
    if from < 0 || from >= lines.len() {
        Some(output)
    } else {
        match line_reading(output, lines[from]) {
            LineReading::Continue(next) => lines_reading(next, lines, from + 1),
            LineReading::Finished => Some(output),
            LineReading::Failed => None,
        }
    }
}

/// The outcome that the evaluator's output stands for: the reading of its
/// lines after the skipped ones.
pub open spec fn evaluation_of(lines: Seq<Seq<char>>) -> Option<Seq<char>> {
    lines_reading(Seq::empty(), lines, SKIPPED_LINES as int)
}

/// The outcome that the evaluator's output, line by line, stands for: see
/// [`evaluation_of`].
pub fn evaluate(lines: &Vec<String>) -> (outcome: Option<String>)
    ensures
        (match outcome {
            Some(text) => evaluation_of(texts(lines@)) == Some(text@),
            None => evaluation_of(texts(lines@)) is None,
        }),
{
    let mut output = String::new();
    let mut at: usize = SKIPPED_LINES;
    while at < lines.len()
        invariant
            SKIPPED_LINES <= at,
            lines_reading(output@, texts(lines@), at as int) == evaluation_of(texts(lines@)),
        decreases lines.len() - at,
    {
        match read_line(&mut output, lines[at].as_str()) {
            Verdict::Continue => {},
            Verdict::Finished => {
                return Some(output);
            },
            Verdict::Failed => {
                return None;
            },
        }
        at += 1;
    }
    Some(output)
}

/// The arguments the evaluator is started with: UTF-8 output, nine
/// decimals at most, the decimal sign that is in use, and evaluation of
/// each line as it is read.
pub open spec fn evaluator_arguments(decimal_comma: bool) -> Seq<Seq<char>> {
    seq![
        "-u8"@,
        "-set"@,
        "maxdeci 9"@,
        "-set"@,
        if decimal_comma {
            "decimal comma on"@
        } else {
            "decimal comma off"@
        },
        "-set"@,
        "autocalc on"@,
    ]
}

/// How the evaluator is started for one expression.
pub struct Invocation {
    /// The program to run.
    pub program: String,
    /// Its arguments.
    pub arguments: Vec<String>,
    /// The variable of the environment that fixes the language of its
    /// output, and the value it is set to.
    pub language: (String, String),
    /// What is written to its standard input.
    pub input: String,
}

/// How the evaluator is started for an expression: as `qalc` with the
/// arguments above, with `LANG` set to `C`, and with the expression as one
/// line on its standard input.
pub fn invocation(expression: &str, decimal_comma: bool) -> (start: Invocation)
    ensures
        start.program@ == "qalc"@,
        texts(start.arguments@) == evaluator_arguments(decimal_comma),
        start.language.0@ == "LANG"@,
        start.language.1@ == "C"@,
        start.input@ == expression@ + "\n"@,
{
    let mut arguments: Vec<String> = Vec::new();
    arguments.push(String::from_str("-u8"));
    arguments.push(String::from_str("-set"));
    arguments.push(String::from_str("maxdeci 9"));
    arguments.push(String::from_str("-set"));
    if decimal_comma {
        arguments.push(String::from_str("decimal comma on"));
    } else {
        arguments.push(String::from_str("decimal comma off"));
    }
    arguments.push(String::from_str("-set"));
    arguments.push(String::from_str("autocalc on"));
    let mut input = String::from_str(expression);
    input.append("\n");
    Invocation {
        program: String::from_str("qalc"),
        arguments,
        language: (String::from_str("LANG"), String::from_str("C")),
        input,
    }
}

/// The outcome shown when the evaluator could not be started.
pub open spec fn spawn_failure_text(not_found: bool, why: Seq<char>) -> Seq<char> {
    if not_found {
        "qalc command is not installed"@
    } else {
        "qalc command failed to spawn: "@ + why
    }
}

/// The outcome shown when the evaluator could not be started: that it is
/// not installed, or else the system's words for the failure.
pub fn spawn_failure(not_found: bool, why: &str) -> (outcome: String)
    ensures
        outcome@ == spawn_failure_text(not_found, why@),
{
    if not_found {
        String::from_str("qalc command is not installed")
    } else {
        let mut outcome = String::from_str("qalc command failed to spawn: ");
        outcome.append(why);
        outcome
    }
}

/// The outcome shown when the evaluator offers no standard output.
pub fn missing_output() -> (outcome: String)
    ensures
        outcome@ == "qalc lacks stdout pipe: did you get hit by a cosmic ray?"@,
{
    String::from_str("qalc lacks stdout pipe: did you get hit by a cosmic ray?")
}

/// Whether the locale's description of its decimal sign names the comma.
pub open spec fn names_decimal_comma(description: Seq<char>) -> bool {
    contains(description, "decimal_point=\",\""@)
}

/// Checks if the system uses a decimal comma instead of a decimal point,
/// given what the locale query printed; a query that printed nothing
/// readable means a point.
pub fn uses_decimal_comma(description: Option<&str>) -> (comma: bool)
    ensures
        comma == (match description {
            Some(text) => names_decimal_comma(text@),
            None => false,
        }),
{
    match description {
        Some(text) => {
            let chars = chars_of(text);
            let pattern = chars_of("decimal_point=\",\"");
            holds(&chars, &pattern)
        },
        None => false,
    }
}

} // verus!
