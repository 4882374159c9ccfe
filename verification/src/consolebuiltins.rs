//! The host bridge: the fixed table of functions a guest script may call.
//!
//! Every call is a deferred effect: it records intent into the shared
//! [`ZVMState`](crate::zvm::ZVMState) or reads the input snapshot, and
//! never draws immediately.  The one native value the bridge understands
//! is the color built by `color`; handing anything else where a color is
//! expected is a [`TypeError`], which aborts only the current call.

use crate::zvm::{ZEvent, ZVMState};
use vstd::prelude::*;

verus! {

/// The native color value `color` builds and `gset`/`rect` consume.
#[derive(Clone, Copy, PartialEq, Eq, Structural, Debug)]
pub struct ZColor {
    pub r: u8,
    pub g: u8,
    pub b: u8,
}

impl ZColor {
    /// The red, green and blue channels, in the form the renderer takes.
    pub fn tocolor(&self) -> (c: (u8, u8, u8))
        ensures
            c == (self.r, self.g, self.b),
    {
        (self.r, self.g, self.b)
    }
}

/// A guest runtime value as it crosses the bridge, as a closed tagged
/// union: a native color is one more variant, so reading it back is an
/// exhaustive match and never an unchecked cast.
#[derive(Debug)]
pub enum HostValue {
    Null,
    Bool(bool),
    Num(i64),
    Str(String),
    Color(ZColor),
}

/// The bridge's type fault: a value that had to be a native color was not
/// one.  It propagates as a guest exception and aborts only the current
/// call.
#[derive(Debug)]
pub struct TypeError {
    pub message: String,
}

/// How a guest number is narrowed into a color channel: saturated into
/// `0..=255`.
pub open spec fn spec_channel(v: i64) -> u8 {
    if v < 0 {
        0
    } else if v > 255 {
        255
    } else {
        v as u8
    }
}

fn channel(v: i64) -> (r: u8)
    ensures
        r == spec_channel(v),
{
    if v < 0 {
        0
    } else if v > 255 {
        255
    } else {
        v as u8
    }
}

/// The value `color(r, g, b)` returns.
pub open spec fn spec_color(r: i64, g: i64, b: i64) -> HostValue {
    HostValue::Color(ZColor { r: spec_channel(r), g: spec_channel(g), b: spec_channel(b) })
}

/// The fixed, arity-checked bridge table, in the order the guest engine
/// binds it: each entry is a function's name and its argument count.  The
/// engine enforces the arity before invoking the function.
pub fn functions() -> (r: Vec<(String, usize)>)
    ensures
        r@.len() == 5,
        r@[0].0@ == "key"@ && r@[0].1 == 1,
        r@[1].0@ == "put"@ && r@[1].1 == 1,
        r@[2].0@ == "color"@ && r@[2].1 == 3,
        r@[3].0@ == "gset"@ && r@[3].1 == 3,
        r@[4].0@ == "rect"@ && r@[4].1 == 5,
{
    let mut table: Vec<(String, usize)> = Vec::new();
    table.push((String::from_str("key"), 1));
    table.push((String::from_str("put"), 1));
    table.push((String::from_str("color"), 3));
    table.push((String::from_str("gset"), 3));
    table.push((String::from_str("rect"), 5));
    table
}

/// True when `name` is one of the pressed identifiers of the snapshot.
pub open spec fn spec_key_down(keys: Seq<String>, name: Seq<char>) -> bool {
    exists|i: int| 0 <= i < keys.len() && keys[i]@ == name
}

/// Bridge `key(name)`: reads the input snapshot; no side effect.
pub fn keypressed(state: &ZVMState, name: &String) -> (r: Result<HostValue, TypeError>)
    ensures
        r == Result::<HostValue, TypeError>::Ok(
            HostValue::Bool(spec_key_down(state.keys@, name@)),
        ),
{
    let mut i: usize = 0;
    let mut down = false;
    while i < state.keys.len()
        invariant
            i <= state.keys@.len(),
            down <==> (exists|j: int| 0 <= j < i && state.keys@[j]@ == name@),
        decreases state.keys@.len() - i,
    {
        if state.keys[i].eq(name) {
            down = true;
        }
        i = i + 1;
    }
    Ok(HostValue::Bool(down))
}

/// Bridge `put(text)`: appends `Put(text)` to the command buffer.
pub fn put(state: &mut ZVMState, text: String) -> (r: Result<HostValue, TypeError>)
    ensures
        final(state).buffer@ == old(state).buffer@.push(ZEvent::Put(text)),
        final(state).keys == old(state).keys,
        r == Result::<HostValue, TypeError>::Ok(HostValue::Null),
{
    state.buffer.push(ZEvent::Put(text));
    Ok(HostValue::Null)
}

/// Bridge `color(r, g, b)`: builds a native color; no side effect and
/// never a fault.
pub fn color(r: i64, g: i64, b: i64) -> (res: Result<HostValue, TypeError>)
    ensures
        res == Result::<HostValue, TypeError>::Ok(spec_color(r, g, b)),
{
    Ok(HostValue::Color(ZColor { r: channel(r), g: channel(g), b: channel(b) }))
}

/// What `gset` does: with a native color it appends exactly one `GSet`
/// command and succeeds with `Null`; with anything else it leaves the
/// state untouched and raises a `TypeError`.
pub open spec fn gset_post(
    pre: ZVMState,
    post: ZVMState,
    x: i64,
    y: i64,
    v: HostValue,
    r: Result<HostValue, TypeError>,
) -> bool {
    match v {
        HostValue::Color(c) => post.buffer@ == pre.buffer@.push(ZEvent::GSet { x, y, color: c })
            && post.keys == pre.keys && r == Result::<HostValue, TypeError>::Ok(HostValue::Null),
        _ => post == pre && (r matches Err(e) && e.message@ == "expected a color value"@),
    }
}

/// Bridge `gset(x, y, color)`: appends `GSet` when `colorval` is a native
/// color, and otherwise raises a `TypeError` without recording anything.
pub fn gset(state: &mut ZVMState, x: i64, y: i64, colorval: HostValue) -> (r: Result<
    HostValue,
    TypeError,
>)
    ensures
        gset_post(*old(state), *final(state), x, y, colorval, r),
{
    match colorval {
        HostValue::Color(c) => {
            state.buffer.push(ZEvent::GSet { x, y, color: c });
            Ok(HostValue::Null)
        },
        _ => Err(TypeError { message: String::from_str("expected a color value") }),
    }
}

/// What `rect` does: as [`gset_post`], with a `Rect` command.
pub open spec fn rect_post(
    pre: ZVMState,
    post: ZVMState,
    x: i64,
    y: i64,
    w: i64,
    h: i64,
    v: HostValue,
    r: Result<HostValue, TypeError>,
) -> bool {
    match v {
        HostValue::Color(c) => post.buffer@ == pre.buffer@.push(
            ZEvent::Rect { x, y, w, h, color: c },
        ) && post.keys == pre.keys && r == Result::<HostValue, TypeError>::Ok(HostValue::Null),
        _ => post == pre && (r matches Err(e) && e.message@ == "expected a color value"@),
    }
}

/// Bridge `rect(x, y, w, h, color)`: appends `Rect` when `colorval` is a
/// native color, and otherwise raises a `TypeError` without recording
/// anything.
pub fn rect(state: &mut ZVMState, x: i64, y: i64, w: i64, h: i64, colorval: HostValue) -> (r:
    Result<HostValue, TypeError>)
    ensures
        rect_post(*old(state), *final(state), x, y, w, h, colorval, r),
{
    match colorval {
        HostValue::Color(c) => {
            state.buffer.push(ZEvent::Rect { x, y, w, h, color: c });
            Ok(HostValue::Null)
        },
        _ => Err(TypeError { message: String::from_str("expected a color value") }),
    }
}

/// The buffer after a sequence of bridge appends, applied first to last.
pub open spec fn append_all(b: Seq<ZEvent>, cmds: Seq<ZEvent>) -> Seq<ZEvent>
    decreases cmds.len(),
{
    if cmds.len() == 0 {
        b
    } else {
        append_all(b.push(cmds[0]), cmds.drop_first())
    }
}

/// The command buffer preserves call order exactly: appending the commands
/// of one frame, one bridge call at a time, leaves the buffer as the old
/// buffer followed by those commands in the order they were issued.
pub proof fn lemma_call_order(b: Seq<ZEvent>, cmds: Seq<ZEvent>)
    ensures
        append_all(b, cmds) == b + cmds,
    decreases cmds.len(),
{
    if cmds.len() == 0 {
        assert(append_all(b, cmds) =~= b + cmds);
    } else {
        lemma_call_order(b.push(cmds[0]), cmds.drop_first());
        assert(b.push(cmds[0]) + cmds.drop_first() =~= b + cmds);
    }
}

/// A value built by `color` is never rejected: `gset` and `rect` accept
/// it, append exactly one command, and raise no `TypeError`.
pub proof fn lemma_color_never_type_fault(
    pre: ZVMState,
    post: ZVMState,
    x: i64,
    y: i64,
    r: i64,
    g: i64,
    b: i64,
    res: Result<HostValue, TypeError>,
)
    requires
        gset_post(pre, post, x, y, spec_color(r, g, b), res),
    ensures
        res is Ok,
        post.buffer@.len() == pre.buffer@.len() + 1,
{
}

/// As [`lemma_color_never_type_fault`], for `rect`.
pub proof fn lemma_color_never_type_fault_rect(
    pre: ZVMState,
    post: ZVMState,
    x: i64,
    y: i64,
    w: i64,
    h: i64,
    r: i64,
    g: i64,
    b: i64,
    res: Result<HostValue, TypeError>,
)
    requires
        rect_post(pre, post, x, y, w, h, spec_color(r, g, b), res),
    ensures
        res is Ok,
        post.buffer@.len() == pre.buffer@.len() + 1,
{
}

/// Any non-color value handed where a color is expected is rejected: the
/// call raises a `TypeError` and appends no command.
pub proof fn lemma_non_color_rejected(
    pre: ZVMState,
    post: ZVMState,
    x: i64,
    y: i64,
    v: HostValue,
    res: Result<HostValue, TypeError>,
)
    requires
        gset_post(pre, post, x, y, v, res),
        !(v is Color),
    ensures
        res is Err,
        post == pre,
{
}

} // verus!
