//! Window parameters encoded into a window title, read by the GNOME
//! shell extension that manages the renderer windows.

use vstd::prelude::*;

use crate::text::{dec_int, push_i32_dec};

verus! {

/// What the extension is told about a renderer window.
#[derive(Debug, Clone, Copy, PartialEq, Eq)]
pub struct HanabiWindowParams {
    pub position: [i32; 2],
    pub keep_at_bottom: bool,
    pub keep_minimized: bool,
    pub keep_position: bool,
}

/// The JSON spelling of a boolean.
pub open spec fn spec_bool_text(b: bool) -> Seq<char> {
    if b {
        "true"@
    } else {
        "false"@
    }
}

fn push_bool_text(s: &mut String, b: bool)
    ensures
        final(s)@ == old(s)@ + spec_bool_text(b),
{
    if b {
        s.append("true");
    } else {
        s.append("false");
    }
}

impl HanabiWindowParams {
    /// The title: the extension's application id, a separator, and the
    /// parameters as a camel-case JSON object.
    pub open spec fn spec_title(self) -> Seq<char> {
        "@io.github.jeffshee.HanabiRenderer!{\"position\":["@ + dec_int(
            self.position@[0] as int,
        ) + ","@ + dec_int(self.position@[1] as int) + "],\"keepAtBottom\":"@ + spec_bool_text(
            self.keep_at_bottom,
        ) + ",\"keepMinimized\":"@ + spec_bool_text(self.keep_minimized)
            + ",\"keepPosition\":"@ + spec_bool_text(self.keep_position) + "}"@
    }

    pub fn hanabi_window_title(&self) -> (r: String)
        ensures
            r@ == self.spec_title(),
    {
        let mut s = "@io.github.jeffshee.HanabiRenderer!{\"position\":[".to_owned();
        push_i32_dec(&mut s, self.position[0]);
        s.append(",");
        push_i32_dec(&mut s, self.position[1]);
        s.append("],\"keepAtBottom\":");
        push_bool_text(&mut s, self.keep_at_bottom);
        s.append(",\"keepMinimized\":");
        push_bool_text(&mut s, self.keep_minimized);
        s.append(",\"keepPosition\":");
        push_bool_text(&mut s, self.keep_position);
        s.append("}");
        proof {
            assert(s@ =~= self.spec_title());
        }
        s
    }
}

impl Default for HanabiWindowParams {
    /// The origin position with every keep-flag off.
    fn default() -> (r: Self)
        ensures
            r.position@[0] == 0,
            r.position@[1] == 0,
            !r.keep_at_bottom,
            !r.keep_minimized,
            !r.keep_position,
    {
        HanabiWindowParams {
            position: [0, 0],
            keep_at_bottom: false,
            keep_minimized: false,
            keep_position: false,
        }
    }
}

} // verus!
