use vstd::prelude::*;

verus! {

/// One operation on the terminal device or on the event pump.
#[derive(Debug, Clone, Copy, PartialEq, Eq, Structural)]
pub enum TermOp {
    EnableRawMode,
    DisableRawMode,
    EnterAlternateScreen,
    LeaveAlternateScreen,
    HideCursor,
    ShowCursor,
    EnableMouseCapture,
    DisableMouseCapture,
    EnableBracketedPaste,
    DisableBracketedPaste,
    Flush,
    StartPump,
    StopPump,
}

/// The optional terminal features, fixed when the session is made.
#[derive(Debug, Clone, Copy, PartialEq, Eq, Structural)]
pub struct SessionConfig {
    pub mouse: bool,
    pub paste: bool,
}

/// What the terminal and the pump are doing.
#[derive(Debug, Clone, Copy, PartialEq, Eq, Structural)]
pub struct TermState {
    pub raw: bool,
    pub alternate: bool,
    pub cursor_hidden: bool,
    pub mouse: bool,
    pub paste: bool,
    pub pump: bool,
}

/// A terminal in its ordinary state, with no pump running.
pub open spec fn plain() -> TermState {
    TermState {
        raw: false,
        alternate: false,
        cursor_hidden: false,
        mouse: false,
        paste: false,
        pump: false,
    }
}

pub open spec fn apply(s: TermState, op: TermOp) -> TermState {
    match op {
        TermOp::EnableRawMode => TermState { raw: true, ..s },
        TermOp::DisableRawMode => TermState { raw: false, ..s },
        TermOp::EnterAlternateScreen => TermState { alternate: true, ..s },
        TermOp::LeaveAlternateScreen => TermState { alternate: false, ..s },
        TermOp::HideCursor => TermState { cursor_hidden: true, ..s },
        TermOp::ShowCursor => TermState { cursor_hidden: false, ..s },
        TermOp::EnableMouseCapture => TermState { mouse: true, ..s },
        TermOp::DisableMouseCapture => TermState { mouse: false, ..s },
        TermOp::EnableBracketedPaste => TermState { paste: true, ..s },
        TermOp::DisableBracketedPaste => TermState { paste: false, ..s },
        TermOp::Flush => s,
        TermOp::StartPump => TermState { pump: true, ..s },
        TermOp::StopPump => TermState { pump: false, ..s },
    }
}

/// The state after the operations `ops`, in order.
pub open spec fn apply_all(s: TermState, ops: Seq<TermOp>) -> TermState
    decreases ops.len(),
{
    if ops.len() == 0 {
        s
    } else {
        apply_all(apply(s, ops[0]), ops.skip(1))
    }
}

/// An operation that switches a mode of the terminal.
pub open spec fn toggles(op: TermOp) -> bool {
    !(op is Flush || op is StartPump || op is StopPump)
}

pub open spec fn opt_op(b: bool, op: TermOp) -> Seq<TermOp> {
    if b {
        seq![op]
    } else {
        Seq::empty()
    }
}

/// Entering: raw mode, alternate screen, hidden cursor, the configured
/// features, then the pump.
pub open spec fn enter_plan(c: SessionConfig) -> Seq<TermOp> {
    seq![TermOp::EnableRawMode, TermOp::EnterAlternateScreen, TermOp::HideCursor] + opt_op(
        c.mouse,
        TermOp::EnableMouseCapture,
    ) + opt_op(c.paste, TermOp::EnableBracketedPaste) + seq![TermOp::StartPump]
}

/// Exiting: the pump stops; only where raw mode is on is the output flushed
/// and every mode undone, in the reverse order of entering.
pub open spec fn exit_plan(c: SessionConfig, raw: bool) -> Seq<TermOp> {
    seq![TermOp::StopPump] + if raw {
        seq![TermOp::Flush] + opt_op(c.paste, TermOp::DisableBracketedPaste) + opt_op(
            c.mouse,
            TermOp::DisableMouseCapture,
        ) + seq![TermOp::LeaveAlternateScreen, TermOp::ShowCursor, TermOp::DisableRawMode]
    } else {
        Seq::empty()
    }
}

pub proof fn lemma_apply_all_append(s: TermState, a: Seq<TermOp>, b: Seq<TermOp>)
    ensures
        apply_all(s, a + b) == apply_all(apply_all(s, a), b),
    decreases a.len(),
{
    if a.len() == 0 {
        assert(a + b =~= b);
    } else {
        lemma_apply_all_append(apply(s, a[0]), a.skip(1), b);
        assert((a + b).skip(1) =~= a.skip(1) + b);
    }
}

proof fn lemma_apply_one(s: TermState, op: TermOp)
    ensures
        apply_all(s, seq![op]) == apply(s, op),
{
    reveal_with_fuel(apply_all, 2);
    assert(seq![op].skip(1) =~= Seq::<TermOp>::empty());
}

proof fn lemma_apply_opt(s: TermState, b: bool, op: TermOp)
    ensures
        apply_all(s, opt_op(b, op)) == if b {
            apply(s, op)
        } else {
            s
        },
{
    if b {
        lemma_apply_one(s, op);
    }
}

/// Exiting leaves raw mode off: a second exit in a row stops the pump again
/// and switches no mode of the terminal.
pub proof fn lemma_exit_idempotent(c: SessionConfig, s: TermState)
    ensures
        !apply_all(s, exit_plan(c, s.raw)).raw,
        exit_plan(c, apply_all(s, exit_plan(c, s.raw)).raw) == seq![TermOp::StopPump],
        forall|i: int|
            0 <= i < exit_plan(c, apply_all(s, exit_plan(c, s.raw)).raw).len() ==> !toggles(
                #[trigger] exit_plan(c, apply_all(s, exit_plan(c, s.raw)).raw)[i],
            ),
{
    reveal_with_fuel(apply_all, 4);
    let p = exit_plan(c, s.raw);
    lemma_apply_one(s, TermOp::StopPump);
    let s1 = apply(s, TermOp::StopPump);
    if s.raw {
        let a = seq![TermOp::StopPump];
        let b = seq![TermOp::Flush];
        let d = opt_op(c.paste, TermOp::DisableBracketedPaste);
        let e = opt_op(c.mouse, TermOp::DisableMouseCapture);
        let f = seq![TermOp::LeaveAlternateScreen, TermOp::ShowCursor, TermOp::DisableRawMode];
        assert(p =~= a + (b + (d + (e + f))));
        lemma_apply_all_append(s, a, b + (d + (e + f)));
        lemma_apply_all_append(s1, b, d + (e + f));
        lemma_apply_one(s1, TermOp::Flush);
        lemma_apply_all_append(s1, d, e + f);
        lemma_apply_opt(s1, c.paste, TermOp::DisableBracketedPaste);
        let s2 = apply_all(s1, d);
        lemma_apply_all_append(s2, e, f);
        lemma_apply_opt(s2, c.mouse, TermOp::DisableMouseCapture);
        let s3 = apply_all(s2, e);
        assert(f.skip(1).skip(1).skip(1) =~= Seq::<TermOp>::empty());
        assert(f.skip(1)[0] == TermOp::ShowCursor);
        assert(f.skip(1).skip(1)[0] == TermOp::DisableRawMode);
        assert(!apply_all(s3, f).raw);
    } else {
        assert(p =~= seq![TermOp::StopPump]);
    }
    let q = exit_plan(c, apply_all(s, p).raw);
    assert(q =~= seq![TermOp::StopPump]);
}

/// Entering and then exiting gives back the terminal's ordinary state.
pub proof fn lemma_enter_exit_restores(c: SessionConfig)
    ensures
        apply_all(apply_all(plain(), enter_plan(c)), exit_plan(c, true)) == plain(),
{
    reveal_with_fuel(apply_all, 4);
    let a = seq![TermOp::EnableRawMode, TermOp::EnterAlternateScreen, TermOp::HideCursor];
    let m = opt_op(c.mouse, TermOp::EnableMouseCapture);
    let p = opt_op(c.paste, TermOp::EnableBracketedPaste);
    let z = seq![TermOp::StartPump];
    assert(enter_plan(c) =~= a + (m + (p + z)));
    lemma_apply_all_append(plain(), a, m + (p + z));
    let s1 = apply_all(plain(), a);
    assert(a.skip(1).skip(1).skip(1) =~= Seq::<TermOp>::empty());
    lemma_apply_all_append(s1, m, p + z);
    lemma_apply_opt(s1, c.mouse, TermOp::EnableMouseCapture);
    let s2 = apply_all(s1, m);
    lemma_apply_all_append(s2, p, z);
    lemma_apply_opt(s2, c.paste, TermOp::EnableBracketedPaste);
    let s3 = apply_all(s2, p);
    lemma_apply_one(s3, TermOp::StartPump);
    let s4 = apply(s3, TermOp::StartPump);
    let b = seq![TermOp::StopPump];
    let f = seq![TermOp::Flush];
    let d = opt_op(c.paste, TermOp::DisableBracketedPaste);
    let e = opt_op(c.mouse, TermOp::DisableMouseCapture);
    let g = seq![TermOp::LeaveAlternateScreen, TermOp::ShowCursor, TermOp::DisableRawMode];
    assert(exit_plan(c, true) =~= b + (f + (d + (e + g))));
    lemma_apply_all_append(s4, b, f + (d + (e + g)));
    lemma_apply_one(s4, TermOp::StopPump);
    let t1 = apply(s4, TermOp::StopPump);
    lemma_apply_all_append(t1, f, d + (e + g));
    lemma_apply_one(t1, TermOp::Flush);
    lemma_apply_all_append(t1, d, e + g);
    lemma_apply_opt(t1, c.paste, TermOp::DisableBracketedPaste);
    let t2 = apply_all(t1, d);
    lemma_apply_all_append(t2, e, g);
    lemma_apply_opt(t2, c.mouse, TermOp::DisableMouseCapture);
    assert(g.skip(1).skip(1).skip(1) =~= Seq::<TermOp>::empty());
    assert(g.skip(1)[0] == TermOp::ShowCursor);
    assert(g.skip(1).skip(1)[0] == TermOp::DisableRawMode);
    assert(a.skip(1)[0] == TermOp::EnterAlternateScreen);
    assert(a.skip(1).skip(1)[0] == TermOp::HideCursor);
}

fn push_if(ops: &mut Vec<TermOp>, b: bool, op: TermOp)
    ensures
        final(ops)@ == old(ops)@ + opt_op(b, op),
{
    if b {
        ops.push(op);
    }
    assert(final(ops)@ =~= old(ops)@ + opt_op(b, op));
}

impl SessionConfig {
    /// The operations that enter the terminal session.
    pub fn enter_ops(&self) -> (r: Vec<TermOp>)
        ensures
            r@ == enter_plan(*self),
    {
        let mut ops: Vec<TermOp> = Vec::new();
        ops.push(TermOp::EnableRawMode);
        ops.push(TermOp::EnterAlternateScreen);
        ops.push(TermOp::HideCursor);
        push_if(&mut ops, self.mouse, TermOp::EnableMouseCapture);
        push_if(&mut ops, self.paste, TermOp::EnableBracketedPaste);
        ops.push(TermOp::StartPump);
        assert(ops@ =~= enter_plan(*self));
        ops
    }

    /// The operations that exit the terminal session, given whether raw mode is on.
    pub fn exit_ops(&self, raw: bool) -> (r: Vec<TermOp>)
        ensures
            r@ == exit_plan(*self, raw),
    {
        let mut ops: Vec<TermOp> = Vec::new();
        ops.push(TermOp::StopPump);
        if raw {
            ops.push(TermOp::Flush);
            push_if(&mut ops, self.paste, TermOp::DisableBracketedPaste);
            push_if(&mut ops, self.mouse, TermOp::DisableMouseCapture);
            ops.push(TermOp::LeaveAlternateScreen);
            ops.push(TermOp::ShowCursor);
            ops.push(TermOp::DisableRawMode);
        }
        assert(ops@ =~= exit_plan(*self, raw));
        ops
    }
}

} // verus!
