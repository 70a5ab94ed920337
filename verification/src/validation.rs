use vstd::prelude::*;

use crate::error::AppError;

use crate::text::{join_strings, joined, lemma_texts_of_push, same_text, texts_of};

verus! {

/// One failed rule on one field: a machine code and an optional message for people.
#[derive(Debug, Clone, PartialEq, Eq)]
pub struct ValidationError {
    pub code: String,
    pub message: Option<String>,
}

/// What a `ValidationError` says.
pub struct ErrorView {
    pub code: Seq<char>,
    pub message: Option<Seq<char>>,
}

impl View for ValidationError {
    type V = ErrorView;

    open spec fn view(&self) -> ErrorView {
        ErrorView {
            code: self.code@,
            message: match self.message {
                Some(m) => Some(m@),
                None => None,
            },
        }
    }
}

/// The failed rules of one field.
#[derive(Debug, Clone, PartialEq, Eq)]
pub struct FieldErrors {
    pub field: String,
    pub errors: Vec<ValidationError>,
}

/// What a `FieldErrors` says.
pub struct FieldErrorsView {
    pub field: Seq<char>,
    pub errors: Seq<ErrorView>,
}

impl View for FieldErrors {
    type V = FieldErrorsView;

    open spec fn view(&self) -> FieldErrorsView {
        FieldErrorsView {
            field: self.field@,
            errors: self.errors@.map_values(|e: ValidationError| e@),
        }
    }
}

/// The failed rules of a whole value, field by field.
#[derive(Debug, Clone, PartialEq, Eq)]
pub struct ValidationErrors {
    pub fields: Vec<FieldErrors>,
}

impl View for ValidationErrors {
    type V = Seq<FieldErrorsView>;

    open spec fn view(&self) -> Seq<FieldErrorsView> {
        self.fields@.map_values(|f: FieldErrors| f@)
    }
}

impl ValidationError {
    /// An error with the given code and no message.
    pub fn new(code: &str) -> (e: ValidationError)
        ensures
            e@ == (ErrorView { code: code@, message: None }),
    {
        ValidationError { code: code.to_owned(), message: None }
    }

    /// The same error, with a message for people.
    pub fn with_message(self, message: &str) -> (e: ValidationError)
        ensures
            e@ == (ErrorView { code: self@.code, message: Some(message@) }),
    {
        ValidationError { code: self.code, message: Some(message.to_owned()) }
    }
}

/// The error list of a single field that broke a single rule.
pub open spec fn single_field(field: Seq<char>, e: ErrorView) -> Seq<FieldErrorsView> {
    seq![FieldErrorsView { field, errors: seq![e] }]
}

/// Whether some entry is about `field`.
pub open spec fn has_entry(errs: Seq<FieldErrorsView>, field: Seq<char>) -> bool {
    exists|i: int| 0 <= i < errs.len() && (#[trigger] errs[i]).field == field
}

/// Whether entry `i` is the first one about `field`.
pub open spec fn first_entry(errs: Seq<FieldErrorsView>, field: Seq<char>, i: int) -> bool {
    &&& 0 <= i < errs.len()
    &&& errs[i].field == field
    &&& forall|k: int| 0 <= k < i ==> (#[trigger] errs[k]).field != field
}

impl ValidationErrors {
    /// No errors yet.
    pub fn new() -> (errs: ValidationErrors)
        ensures
            errs@ == Seq::<FieldErrorsView>::empty(),
    {
        ValidationErrors { fields: Vec::new() }
    }

    /// Records that `field` broke the rule described by `error`, as
    /// `validator`'s `ValidationErrors::add` does: the error joins the entry of
    /// that field if there is one, else a new entry is made at the end.
    pub fn add_field(&mut self, field: &str, error: ValidationError)
        ensures
            forall|i: int|
                #![trigger first_entry(old(self)@, field@, i)]
                first_entry(old(self)@, field@, i) ==> final(self)@ == old(self)@.update(
                    i,
                    FieldErrorsView {
                        field: old(self)@[i].field,
                        errors: old(self)@[i].errors.push(error@),
                    },
                ),
            !has_entry(old(self)@, field@) ==> final(self)@ == old(self)@ + single_field(
                field@,
                error@,
            ),
    {
        let ghost before = self@;
        let n = self.fields.len();
        let mut i: usize = 0;
        while i < n
            invariant
                n == self.fields@.len(),
                self@ == before,
                before == old(self)@,
                i <= n,
                forall|k: int| 0 <= k < i ==> (#[trigger] before[k]).field != field@,
            decreases n - i,
        {
            if same_text(self.fields[i].field.as_str(), field) {
                assert(before[i as int] == self.fields@[i as int]@);
                assert(before[i as int].field == field@);
                assert(has_entry(before, field@));
                let mut entry = self.fields.remove(i);
                let ghost old_errors = entry.errors@;
                entry.errors.push(error);
                assert(entry.errors@.map_values(|e: ValidationError| e@) =~= old_errors.map_values(
                    |e: ValidationError| e@,
                ).push(error@));
                self.fields.insert(i, entry);
                assert forall|j: int| #![trigger first_entry(before, field@, j)] first_entry(before, field@, j) implies self@
                    == before.update(
                    j,
                    FieldErrorsView { field: before[j].field, errors: before[j].errors.push(error@) },
                ) by {
                    if j > i {
                        assert(before[i as int].field == field@);
                    }
                    assert(j == i);
                    assert(self@ =~= before.update(
                        j,
                        FieldErrorsView {
                            field: before[j].field,
                            errors: before[j].errors.push(error@),
                        },
                    ));
                }
                return;
            }
            assert(before[i as int] == self.fields@[i as int]@);
            i += 1;
        }
        let mut errors = Vec::new();
        errors.push(error);
        self.fields.push(FieldErrors { field: field.to_owned(), errors });
        assert(errors@.map_values(|e: ValidationError| e@) =~= seq![error@]);
        assert(self@ =~= before + single_field(field@, error@));
        assert forall|j: int| #![trigger first_entry(before, field@, j)] first_entry(before, field@, j) implies self@
            == before.update(
            j,
            FieldErrorsView { field: before[j].field, errors: before[j].errors.push(error@) },
        ) by {
            assert(before[j].field != field@);
        }
    }

    /// Whether no rule was broken.
    pub fn is_empty(&self) -> (b: bool)
        ensures
            b == (self@.len() == 0),
    {
        self.fields.len() == 0
    }
}

/// What a client reads of one error: its message, or its code when it has none.
pub open spec fn error_text(e: ErrorView) -> Seq<char> {
    match e.message {
        Some(m) => m,
        None => e.code,
    }
}

/// One line of the report: the field, a colon, and the texts of its errors.
pub open spec fn field_line(f: FieldErrorsView) -> Seq<char> {
    f.field + ": "@ + joined(f.errors.map_values(|e: ErrorView| error_text(e)), ", "@)
}

/// The whole report: the lines of all fields, separated by semicolons.
pub open spec fn report(errs: Seq<FieldErrorsView>) -> Seq<char> {
    joined(errs.map_values(|f: FieldErrorsView| field_line(f)), "; "@)
}

fn error_text_of(e: &ValidationError) -> (t: String)
    ensures
        t@ == error_text(e@),
{
    match &e.message {
        Some(m) => m.clone(),
        None => e.code.clone(),
    }
}

fn field_line_of(f: &FieldErrors) -> (line: String)
    ensures
        line@ == field_line(f@),
{
    let ghost views = f@.errors;
    let ghost goal = views.map_values(|e: ErrorView| error_text(e));
    let mut texts: Vec<String> = Vec::new();
    let n = f.errors.len();
    assert(goal.len() == n);
    for j in 0..n
        invariant
            n == f.errors@.len(),
            views == f@.errors,
            goal == views.map_values(|e: ErrorView| error_text(e)),
            goal.len() == n,
            views.len() == n,
            texts_of(texts@) =~= goal.take(j as int),
    {
        let t = error_text_of(&f.errors[j]);
        assert(views[j as int] == f.errors@[j as int]@);
        proof {
            lemma_texts_of_push(texts@, t);
        }
        texts.push(t);
        assert(texts_of(texts@) =~= goal.take(j + 1));
    }
    assert(goal.take(n as int) =~= goal);
    let mut line = f.field.clone();
    line.append(": ");
    let body = join_strings(&texts, ", ");
    line.append(body.as_str());
    line
}

/// Formats validation errors into a single line for display to the client:
/// `field: text, text; field: text`, where a text is an error's message, or
/// its code when it has none.
pub fn format_validation_errors(errors: &ValidationErrors) -> (formatted: String)
    ensures
        formatted@ == report(errors@),
{
    let ghost views = errors@;
    let ghost goal = views.map_values(|f: FieldErrorsView| field_line(f));
    let mut lines: Vec<String> = Vec::new();
    let n = errors.fields.len();
    assert(goal.len() == n);
    for i in 0..n
        invariant
            n == errors.fields@.len(),
            views == errors@,
            goal == views.map_values(|f: FieldErrorsView| field_line(f)),
            goal.len() == n,
            views.len() == n,
            texts_of(lines@) =~= goal.take(i as int),
    {
        let line = field_line_of(&errors.fields[i]);
        assert(views[i as int] == errors.fields@[i as int]@);
        proof {
            lemma_texts_of_push(lines@, line);
        }
        lines.push(line);
        assert(texts_of(lines@) =~= goal.take(i + 1));
    }
    assert(goal.take(n as int) =~= goal);
    join_strings(&lines, "; ")
}

/// Whether `char::is_uppercase` holds of a character (the Unicode `Uppercase` property).
pub uninterp spec fn is_uppercase_char(c: char) -> bool;

/// Whether `char::is_lowercase` holds of a character (the Unicode `Lowercase` property).
pub uninterp spec fn is_lowercase_char(c: char) -> bool;

/// Whether a string is an email address by the rules of `validator::ValidateEmail`
/// (the HTML5 address syntax, with length limits on both parts and IDN domains).
pub uninterp spec fn is_valid_email(text: Seq<char>) -> bool;

/// Calls `char::is_uppercase`; the result is named `is_uppercase_char`.
#[verifier::external_body]
fn char_is_uppercase(c: char) -> (b: bool)
    ensures
        b == is_uppercase_char(c),
{
    c.is_uppercase()
}

/// Calls `char::is_lowercase`; the result is named `is_lowercase_char`.
#[verifier::external_body]
fn char_is_lowercase(c: char) -> (b: bool)
    ensures
        b == is_lowercase_char(c),
{
    c.is_lowercase()
}

/// Calls `validator::ValidateEmail::validate_email` on a string; the result is
/// named `is_valid_email`.
#[verifier::external_body]
pub(crate) fn email_is_valid(text: &str) -> (b: bool)
    ensures
        b == is_valid_email(text@),
{
    validator::ValidateEmail::validate_email(&text)
}

/// Whether a character is a decimal digit, `0` to `9`.
pub open spec fn is_decimal_digit(c: char) -> bool {
    '0' <= c <= '9'
}

/// A class of characters that a password must contain.
#[derive(Clone, Copy, Debug, PartialEq, Eq)]
pub enum CharClass {
    Uppercase,
    Lowercase,
    Digit,
}

/// Whether a character belongs to a class.
pub open spec fn in_class(class: CharClass, c: char) -> bool {
    match class {
        CharClass::Uppercase => is_uppercase_char(c),
        CharClass::Lowercase => is_lowercase_char(c),
        CharClass::Digit => is_decimal_digit(c),
    }
}

/// Whether some character of `text` belongs to `class`.
pub open spec fn has_char_of(text: Seq<char>, class: CharClass) -> bool {
    exists|i: int| 0 <= i < text.len() && in_class(class, #[trigger] text[i])
}

/// Whether some character of `text` belongs to `class`.
pub fn contains_char_of(text: &str, class: CharClass) -> (found: bool)
    ensures
        found == has_char_of(text@, class),
{
    broadcast use vstd::string::group_string_axioms;

    for c in it: text.chars()
        invariant
            it.seq() == text@,
            forall|k: int| 0 <= k < it.index() ==> !in_class(class, #[trigger] text@[k]),
    {
        let hit = match class {
            CharClass::Uppercase => char_is_uppercase(c),
            CharClass::Lowercase => char_is_lowercase(c),
            CharClass::Digit => '0' <= c && c <= '9',
        };
        if hit {
            return true;
        }
    }
    false
}

/// The error code a password is refused with, or `None` when it is strong
/// enough: at least 8 characters, with an uppercase letter, a lowercase letter
/// and a digit.
pub open spec fn password_problem(password: Seq<char>) -> Option<Seq<char>> {
    if password.len() < 8 {
        Some("password_too_short"@)
    } else if has_char_of(password, CharClass::Uppercase) && has_char_of(
        password,
        CharClass::Lowercase,
    ) && has_char_of(password, CharClass::Digit) {
        None
    } else {
        Some("incorrect_password_complexity"@)
    }
}

/// A strong password: at least 8 characters, some of which (at any positions)
/// are an uppercase letter, a lowercase letter and a decimal digit.
pub open spec fn password_is_strong(password: Seq<char>) -> bool {
    &&& password.len() >= 8
    &&& exists|i: int| 0 <= i < password.len() && is_uppercase_char(#[trigger] password[i])
    &&& exists|j: int| 0 <= j < password.len() && is_lowercase_char(#[trigger] password[j])
    &&& exists|k: int| 0 <= k < password.len() && is_decimal_digit(#[trigger] password[k])
}

/// A password is refused exactly when it is not strong: as too short below 8
/// characters, and otherwise for its complexity; where the classes are looked
/// for does not matter, an uppercase letter counts at any position.
pub proof fn password_rule(password: Seq<char>)
    ensures
        password_problem(password) is None <==> password_is_strong(password),
        password.len() < 8 ==> password_problem(password) == Some("password_too_short"@),
        password.len() >= 8 && !password_is_strong(password) ==> password_problem(password) == Some(
            "incorrect_password_complexity"@,
        ),
        forall|i: int|
            0 <= i < password.len() && password.len() >= 8 && is_uppercase_char(#[trigger] password[i])
                && has_char_of(password, CharClass::Lowercase) && has_char_of(password, CharClass::Digit)
                ==> password_problem(password) is None,
{
    if has_char_of(password, CharClass::Uppercase) {
        let i = choose|i: int| 0 <= i < password.len() && in_class(CharClass::Uppercase, #[trigger] password[i]);
        assert(is_uppercase_char(password[i]));
    }
    if has_char_of(password, CharClass::Lowercase) {
        let i = choose|i: int| 0 <= i < password.len() && in_class(CharClass::Lowercase, #[trigger] password[i]);
        assert(is_lowercase_char(password[i]));
    }
    if has_char_of(password, CharClass::Digit) {
        let i = choose|i: int| 0 <= i < password.len() && in_class(CharClass::Digit, #[trigger] password[i]);
        assert(is_decimal_digit(password[i]));
    }
    assert forall|i: int|
        0 <= i < password.len() && password.len() >= 8 && is_uppercase_char(#[trigger] password[i])
            && has_char_of(password, CharClass::Lowercase) && has_char_of(password, CharClass::Digit)
        implies password_problem(password) is None by {
        assert(in_class(CharClass::Uppercase, password[i]));
    }
    if password_is_strong(password) {
        let i = choose|i: int| 0 <= i < password.len() && is_uppercase_char(#[trigger] password[i]);
        let j = choose|j: int| 0 <= j < password.len() && is_lowercase_char(#[trigger] password[j]);
        let k = choose|k: int| 0 <= k < password.len() && is_decimal_digit(#[trigger] password[k]);
        assert(in_class(CharClass::Uppercase, password[i]));
        assert(in_class(CharClass::Lowercase, password[j]));
        assert(in_class(CharClass::Digit, password[k]));
    }
}

/// Checks password complexity: at least 8 characters,
/// includes a capital letter, a lowercase letter, and a digit.
pub fn validate_password(password: &str) -> (checked: Result<(), ValidationError>)
    ensures
        checked is Ok <==> password_is_strong(password@),
        password_problem(password@) is None ==> checked is Ok,
        password_problem(password@) matches Some(code) ==> (checked matches Err(e) && e@ == (
        ErrorView { code, message: None })),
{
    proof {
        password_rule(password@);
    }
    if password.unicode_len() < 8 {
        return Err(ValidationError::new("password_too_short"));
    }
    let has_upper = contains_char_of(password, CharClass::Uppercase);
    let has_lower = contains_char_of(password, CharClass::Lowercase);
    let has_digit = contains_char_of(password, CharClass::Digit);
    if has_upper && has_lower && has_digit {
        Ok(())
    } else {
        Err(ValidationError::new("incorrect_password_complexity"))
    }
}

/// Whether a text has between `min` and `max` characters (Unicode scalar
/// values), as `#[validate(length(..))]` counts them.
pub open spec fn char_count_within(text: Seq<char>, min: nat, max: Option<nat>) -> bool {
    min <= text.len() && match max {
        Some(m) => text.len() <= m,
        None => true,
    }
}

/// Checks a length rule on a text: its number of characters lies in
/// `min..=max` (no upper bound when `max` is `None`).
pub fn check_char_count(text: &str, min: usize, max: Option<usize>) -> (ok: bool)
    ensures
        ok == char_count_within(
            text@,
            min as nat,
            match max {
                Some(m) => Some(m as nat),
                None => None,
            },
        ),
{
    let n = text.unicode_len();
    if n < min {
        return false;
    }
    match max {
        Some(m) => n <= m,
        None => true,
    }
}

/// A value whose fields obey rules; `validate` reports the broken ones.
pub trait Validate {
    /// The broken rules, field by field; empty when the value is valid.
    spec fn broken_rules(&self) -> Seq<FieldErrorsView>;

    fn validate(&self) -> (outcome: Result<(), ValidationErrors>)
        ensures
            outcome is Ok <==> self.broken_rules().len() == 0,
            outcome matches Err(errs) ==> errs@ == self.broken_rules(),
    ;
}

/// Checks any value that has rules: invalid input becomes an
/// `InvalidInput` error that carries the formatted report.
pub fn validate_input<T: Validate>(data: &T) -> (checked: Result<(), AppError>)
    ensures
        checked is Ok <==> data.broken_rules().len() == 0,
        checked is Err ==> (checked matches Err(AppError::InvalidInput(msg)) && msg@ == report(
            data.broken_rules(),
        )),
{
    match data.validate() {
        Ok(()) => Ok(()),
        Err(errors) => Err(AppError::InvalidInput(format_validation_errors(&errors))),
    }
}

} // verus!
