use vstd::prelude::*;

use crate::text::chars_of;
use crate::text::decimal;
use crate::text::is_digit;
use crate::text::is_space;
use crate::text::lemma_decimal;
use crate::text::lemma_parse_decimal;
use crate::text::lemma_trim_digits;
use crate::text::matches_at;
use crate::text::parse_u16;
use crate::text::parse_u16_at;
use crate::text::push_decimal;
use crate::text::trim;
use crate::text::trim_bounds;
use crate::text::trim_end;
use crate::text::trim_start;

verus! {

/// Application-level intent, decoupled from terminal mechanics.
#[derive(Debug, Clone)]
pub enum Action {
    Tick,
    Render,
    Resize(u16, u16),
    Suspend,
    Resume,
    Quit,
    Refresh,
    Error(String),
    Help,
}

/// The value an `Action` stands for, with its message as characters.
pub enum ActionModel {
    Tick,
    Render,
    Resize(u16, u16),
    Suspend,
    Resume,
    Quit,
    Refresh,
    Error(Seq<char>),
    Help,
}

impl View for Action {
    type V = ActionModel;

    open spec fn view(&self) -> ActionModel {
        match self {
            Action::Tick => ActionModel::Tick,
            Action::Render => ActionModel::Render,
            Action::Resize(w, h) => ActionModel::Resize(*w, *h),
            Action::Suspend => ActionModel::Suspend,
            Action::Resume => ActionModel::Resume,
            Action::Quit => ActionModel::Quit,
            Action::Refresh => ActionModel::Refresh,
            Action::Error(m) => ActionModel::Error(m@),
            Action::Help => ActionModel::Help,
        }
    }
}

impl PartialEq for Action {
    fn eq(&self, o: &Action) -> (r: bool) {
        match (self, o) {
            (Action::Tick, Action::Tick) => true,
            (Action::Render, Action::Render) => true,
            (Action::Resize(a, b), Action::Resize(c, d)) => *a == *c && *b == *d,
            (Action::Suspend, Action::Suspend) => true,
            (Action::Resume, Action::Resume) => true,
            (Action::Quit, Action::Quit) => true,
            (Action::Refresh, Action::Refresh) => true,
            (Action::Error(a), Action::Error(b)) => a.eq(b),
            (Action::Help, Action::Help) => true,
            _ => false,
        }
    }
}

impl vstd::std_specs::cmp::PartialEqSpecImpl for Action {
    open spec fn obeys_eq_spec() -> bool {
        true
    }

    open spec fn eq_spec(&self, o: &Action) -> bool {
        self@ == o@
    }
}

impl Eq for Action {
}

/// What the main loop does, besides routing, when it takes an action from the queue.
#[derive(Debug, Clone, Copy, PartialEq, Eq, Structural)]
pub enum LoopEffect {
    Nothing,
    Quit,
    Suspend,
    Resume,
    Resize(u16, u16),
    Render,
}

pub open spec fn effect_of(a: ActionModel) -> LoopEffect {
    match a {
        ActionModel::Quit => LoopEffect::Quit,
        ActionModel::Suspend => LoopEffect::Suspend,
        ActionModel::Resume => LoopEffect::Resume,
        ActionModel::Resize(w, h) => LoopEffect::Resize(w, h),
        ActionModel::Render => LoopEffect::Render,
        _ => LoopEffect::Nothing,
    }
}

/// What went wrong when reading an `Action` from text.
#[derive(Debug, Clone, Copy, PartialEq, Eq, Structural)]
pub enum ActionErrorKind {
    /// The text names no variant.
    UnknownVariant,
    /// A parenthesized payload is not closed, or `Resize` does not hold two fields.
    MalformedPayload,
    /// A `Resize` field is not an unsigned 16-bit integer.
    InvalidNumber,
}

/// A failed decoding, with the text that caused it.
#[derive(Debug, Clone)]
pub struct ActionError {
    pub kind: ActionErrorKind,
    pub token: String,
}

/// Textual form of an action: the variant name, with a parenthesized payload
/// for `Resize` and `Error`.
pub open spec fn encode(a: ActionModel) -> Seq<char> {
    match a {
        ActionModel::Tick => "Tick"@,
        ActionModel::Render => "Render"@,
        ActionModel::Resize(w, h) => "Resize("@ + decimal(w as nat) + ", "@ + decimal(h as nat)
            + ")"@,
        ActionModel::Suspend => "Suspend"@,
        ActionModel::Resume => "Resume"@,
        ActionModel::Quit => "Quit"@,
        ActionModel::Refresh => "Refresh"@,
        ActionModel::Error(m) => "Error("@ + m + ")"@,
        ActionModel::Help => "Help"@,
    }
}

/// `b[i]` is the one comma in `b`.
pub open spec fn single_comma_at(b: Seq<char>, i: int) -> bool {
    0 <= i < b.len() && b[i] == ',' && forall|j: int|
        0 <= j < b.len() && j != i ==> #[trigger] b[j] != ','
}

/// Reads the payload `b` of the `Resize` text `s`.
pub open spec fn decode_resize(b: Seq<char>, s: Seq<char>) -> Result<
    ActionModel,
    (ActionErrorKind, Seq<char>),
> {
    if exists|i: int| single_comma_at(b, i) {
        let i = choose|i: int| single_comma_at(b, i);
        let l = trim(b.take(i));
        let r = trim(b.skip(i + 1));
        match (parse_u16(l), parse_u16(r)) {
            (Some(w), Some(h)) => Ok(ActionModel::Resize(w, h)),
            (None, _) => Err((ActionErrorKind::InvalidNumber, l)),
            (_, None) => Err((ActionErrorKind::InvalidNumber, r)),
        }
    } else {
        Err((ActionErrorKind::MalformedPayload, s))
    }
}

/// The action that the text `s` denotes, or the kind of error and the offending text.
pub open spec fn decode(s: Seq<char>) -> Result<ActionModel, (ActionErrorKind, Seq<char>)> {
    if s == "Tick"@ {
        Ok(ActionModel::Tick)
    } else if s == "Render"@ {
        Ok(ActionModel::Render)
    } else if s == "Suspend"@ {
        Ok(ActionModel::Suspend)
    } else if s == "Resume"@ {
        Ok(ActionModel::Resume)
    } else if s == "Quit"@ {
        Ok(ActionModel::Quit)
    } else if s == "Refresh"@ {
        Ok(ActionModel::Refresh)
    } else if s == "Help"@ {
        Ok(ActionModel::Help)
    } else if "Error("@.is_prefix_of(s) {
        if s.len() > "Error("@.len() && s.last() == ')' {
            Ok(ActionModel::Error(s.subrange("Error("@.len() as int, s.len() - 1)))
        } else {
            Err((ActionErrorKind::MalformedPayload, s))
        }
    } else if "Resize("@.is_prefix_of(s) {
        if s.len() > "Resize("@.len() && s.last() == ')' {
            decode_resize(s.subrange("Resize("@.len() as int, s.len() - 1), s)
        } else {
            Err((ActionErrorKind::MalformedPayload, s))
        }
    } else {
        Err((ActionErrorKind::UnknownVariant, s))
    }
}

/// Descriptive text of a decoding error.
pub open spec fn error_message(kind: ActionErrorKind, token: Seq<char>) -> Seq<char> {
    match kind {
        ActionErrorKind::UnknownVariant => "Unknown Action variant: "@ + token,
        ActionErrorKind::MalformedPayload => "Invalid Action payload: "@ + token,
        ActionErrorKind::InvalidNumber => "Invalid Resize field: "@ + token,
    }
}

/// Writing an action as text and reading that text back gives the same action:
/// the bare name for the variants without payload, and the same width and
/// height, or the same message, for `Resize` and `Error`.
pub proof fn lemma_round_trip(a: ActionModel)
    ensures
        decode(encode(a)) == Ok::<ActionModel, (ActionErrorKind, Seq<char>)>(a),
{
    reveal_strlit("Tick");
    reveal_strlit("Render");
    reveal_strlit("Suspend");
    reveal_strlit("Resume");
    reveal_strlit("Quit");
    reveal_strlit("Refresh");
    reveal_strlit("Help");
    reveal_strlit("Error(");
    reveal_strlit("Resize(");
    reveal_strlit(", ");
    reveal_strlit(")");
    let s = encode(a);
    match a {
        ActionModel::Error(m) => {
            assert(s[0] == 'E');
            assert(s != "Tick"@ && s != "Render"@ && s != "Suspend"@ && s != "Resume"@ && s
                != "Quit"@ && s != "Refresh"@ && s != "Help"@) by {
                assert("Tick"@[0] != 'E' && "Render"@[0] != 'E' && "Suspend"@[0] != 'E'
                    && "Resume"@[0] != 'E' && "Quit"@[0] != 'E' && "Refresh"@[0] != 'E'
                    && "Help"@[0] != 'E');
            }
            assert(s.len() >= 7);
            assert(s[5] == '(');
            assert(s.subrange(0, 6) =~= "Error("@);
            assert(s.subrange(6, s.len() - 1) =~= m);
        },
        ActionModel::Resize(w, h) => {
            let dw = decimal(w as nat);
            let dh = decimal(h as nat);
            lemma_decimal(w as nat);
            lemma_decimal(h as nat);
            assert(s[0] == 'R' && s[1] == 'e' && s[2] == 's' && s[3] == 'i');
            assert(s.len() >= 8);
            assert(s.subrange(0, 7) =~= "Resize("@);
            let b = s.subrange(7, s.len() - 1);
            assert(b =~= dw + ", "@ + dh);
            let k = dw.len() as int;
            assert(b[k] == ',');
            assert forall|j: int| 0 <= j < b.len() && j != k implies #[trigger] b[j] != ',' by {
                if j < k {
                    assert(b[j] == dw[j]);
                    assert(is_digit(dw[j]));
                } else if j > k + 1 {
                    assert(b[j] == dh[j - k - 2]);
                    assert(is_digit(dh[j - k - 2]));
                }
            }
            assert(single_comma_at(b, k));
            let c = choose|c: int| single_comma_at(b, c);
            if c != k {
                assert(b[k] == ',');
            }
            assert(b.take(k) =~= dw);
            let rest = b.skip(k + 1);
            assert(rest =~= seq![' '] + dh);
            lemma_trim_digits(dw);
            lemma_trim_digits(dh);
            assert(is_space(rest[0]));
            assert(rest.skip(1) =~= dh);
            assert(trim_start(rest) == trim_start(dh));
            assert(is_digit(dh[0]));
            assert(trim_start(dh) == dh);
            assert(is_digit(dh.last()));
            assert(trim_end(dh) == dh);
            lemma_parse_decimal(w);
            lemma_parse_decimal(h);
        },
        _ => {
            assert("Tick"@[0] == 'T' && "Render"@[2] == 'n' && "Suspend"@[0] == 'S'
                && "Resume"@[2] == 's' && "Quit"@[0] == 'Q' && "Refresh"@[2] == 'f'
                && "Help"@[0] == 'H');
            assert(s == "Tick"@ || s[0] != 'T');
            assert(s == "Render"@ || s.len() != 6 || s[2] != 'n');
            assert(s == "Suspend"@ || s[0] != 'S');
            assert(s == "Resume"@ || s.len() != 6 || s[2] != 's');
            assert(s == "Quit"@ || s[0] != 'Q');
            assert(s == "Refresh"@ || s[2] != 'f');
            assert(s == "Help"@ || s[0] != 'H');
        },
    }
}

fn is_lit(cs: &Vec<char>, lit: &str) -> (r: bool)
    ensures
        r == (cs@ == lit@),
{
    let r = cs.len() == lit.unicode_len() && matches_at(cs, 0, lit);
    proof {
        if cs@.len() == lit@.len() {
            assert(cs@.subrange(0, lit@.len() as int) =~= cs@);
        }
    }
    r
}

fn text_of(s: &str, from: usize, to: usize) -> (r: String)
    requires
        from <= to <= s@.len(),
    ensures
        r@ == s@.subrange(from as int, to as int),
{
    String::from_str(s.substring_char(from, to))
}

impl ActionError {
    /// Describes the error and names the offending text.
    pub fn message(&self) -> (r: String)
        ensures
            r@ == error_message(self.kind, self.token@),
    {
        let head = match self.kind {
            ActionErrorKind::UnknownVariant => "Unknown Action variant: ",
            ActionErrorKind::MalformedPayload => "Invalid Action payload: ",
            ActionErrorKind::InvalidNumber => "Invalid Resize field: ",
        };
        String::from_str(head).concat(self.token.as_str())
    }
}

impl Action {
    /// Writes the action in its textual form.
    pub fn to_text(&self) -> (r: String)
        ensures
            r@ == encode(self@),
    {
        match self {
            Action::Tick => String::from_str("Tick"),
            Action::Render => String::from_str("Render"),
            Action::Resize(w, h) => {
                let mut out = String::from_str("Resize(");
                push_decimal(&mut out, *w);
                out.append(", ");
                push_decimal(&mut out, *h);
                out.append(")");
                out
            },
            Action::Suspend => String::from_str("Suspend"),
            Action::Resume => String::from_str("Resume"),
            Action::Quit => String::from_str("Quit"),
            Action::Refresh => String::from_str("Refresh"),
            Action::Error(m) => String::from_str("Error(").concat(m.as_str()).concat(")"),
            Action::Help => String::from_str("Help"),
        }
    }

    /// The effect of the action on the terminal lifecycle: quitting,
    /// suspending, resuming, resizing, or drawing a frame.
    pub fn loop_effect(&self) -> (r: LoopEffect)
        ensures
            r == effect_of(self@),
    {
        match self {
            Action::Quit => LoopEffect::Quit,
            Action::Suspend => LoopEffect::Suspend,
            Action::Resume => LoopEffect::Resume,
            Action::Resize(w, h) => LoopEffect::Resize(*w, *h),
            Action::Render => LoopEffect::Render,
            _ => LoopEffect::Nothing,
        }
    }

    /// Reads an action from its textual form.
    pub fn from_text(s: &str) -> (r: Result<Action, ActionError>)
        ensures
            match r {
                Ok(a) => decode(s@) == Ok::<ActionModel, (ActionErrorKind, Seq<char>)>(a@),
                Err(e) => decode(s@) == Err::<ActionModel, (ActionErrorKind, Seq<char>)>(
                    (e.kind, e.token@),
                ),
            },
    {
        let cs = chars_of(s);
        let n = cs.len();
        if is_lit(&cs, "Tick") {
            return Ok(Action::Tick);
        }
        if is_lit(&cs, "Render") {
            return Ok(Action::Render);
        }
        if is_lit(&cs, "Suspend") {
            return Ok(Action::Suspend);
        }
        if is_lit(&cs, "Resume") {
            return Ok(Action::Resume);
        }
        if is_lit(&cs, "Quit") {
            return Ok(Action::Quit);
        }
        if is_lit(&cs, "Refresh") {
            return Ok(Action::Refresh);
        }
        if is_lit(&cs, "Help") {
            return Ok(Action::Help);
        }
        proof {
            reveal_strlit("Error(");
            reveal_strlit("Resize(");
        }
        if matches_at(&cs, 0, "Error(") {
            assert(cs@.subrange(0, 6) == "Error("@);
            if n > 6 && cs[n - 1] == ')' {
                return Ok(Action::Error(text_of(s, 6, n - 1)));
            }
            return Err(ActionError { kind: ActionErrorKind::MalformedPayload, token: String::from_str(s) });
        }
        if !matches_at(&cs, 0, "Resize(") {
            return Err(ActionError { kind: ActionErrorKind::UnknownVariant, token: String::from_str(s) });
        }
        if !(n > 7 && cs[n - 1] == ')') {
            return Err(ActionError { kind: ActionErrorKind::MalformedPayload, token: String::from_str(s) });
        }
        let end = n - 1;
        let ghost b = cs@.subrange(7, end as int);
        assert(decode(s@) == decode_resize(b, s@));
        let mut commas: usize = 0;
        let mut at: usize = 0;
        let mut i: usize = 7;
        while i < end
            invariant
                7 <= i <= end < n == cs@.len(),
                b == cs@.subrange(7, end as int),
                decode(s@) == decode_resize(b, s@),
                commas <= 1,
                commas == 0 ==> forall|j: int| 7 <= j < i ==> #[trigger] cs@[j] != ',',
                commas == 1 ==> 7 <= at < i && cs@[at as int] == ',' && forall|j: int|
                    7 <= j < i && j != at ==> #[trigger] cs@[j] != ',',
            decreases end - i,
        {
            if cs[i] == ',' {
                if commas == 1 {
                    proof {
                        assert forall|k: int| !single_comma_at(b, k) by {
                            if single_comma_at(b, k) {
                                assert(b[at - 7] == ',');
                                assert(b[i - 7] == ',');
                            }
                        }
                    }
                    return Err(ActionError { kind: ActionErrorKind::MalformedPayload, token: String::from_str(s) });
                }
                commas = 1;
                at = i;
            }
            i = i + 1;
        }
        if commas == 0 {
            proof {
                assert forall|k: int| !single_comma_at(b, k) by {
                    if single_comma_at(b, k) {
                        assert(cs@[k + 7] == b[k]);
                    }
                }
            }
            return Err(ActionError { kind: ActionErrorKind::MalformedPayload, token: String::from_str(s) });
        }
        proof {
            let k = at - 7;
            assert forall|j: int| 0 <= j < b.len() && j != k implies #[trigger] b[j] != ',' by {
                assert(b[j] == cs@[j + 7]);
            }
            assert(single_comma_at(b, k));
            let c = choose|c: int| single_comma_at(b, c);
            if c != k {
                assert(b[k] == ',');
            }
            assert(b.take(k) =~= cs@.subrange(7, at as int));
            assert(b.skip(k + 1) =~= cs@.subrange(at + 1, end as int));
        }
        let (wl, wh) = trim_bounds(&cs, 7, at);
        let w = parse_u16_at(&cs, wl, wh);
        let (hl, hh) = trim_bounds(&cs, at + 1, end);
        let h = parse_u16_at(&cs, hl, hh);
        match (w, h) {
            (Some(w), Some(h)) => Ok(Action::Resize(w, h)),
            (None, _) => Err(ActionError { kind: ActionErrorKind::InvalidNumber, token: text_of(s, wl, wh) }),
            (_, None) => Err(ActionError { kind: ActionErrorKind::InvalidNumber, token: text_of(s, hl, hh) }),
        }
    }
}

} // verus!
