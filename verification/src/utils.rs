use vstd::prelude::*;

use crate::keymap::{entry_label, KeyEventWrapper, KeyMaps};

verus! {

/// The help-footer text of one binding: its label in brackets, then its
/// description.
pub open spec fn key_maps_entry_text(e: (KeyEventWrapper, Seq<char>)) -> Seq<char> {
    "["@ + entry_label(e) + "]"@ + e.1
}

/// The help-footer text of a binding listing: the entries' texts joined
/// with slashes.
pub open spec fn key_maps_text(entries: Seq<(KeyEventWrapper, Seq<char>)>) -> Seq<char>
    decreases entries.len(),
{
    if entries.len() == 0 {
        Seq::empty()
    } else if entries.len() == 1 {
        key_maps_entry_text(entries[0])
    } else {
        key_maps_text(entries.drop_last()) + "/"@ + key_maps_entry_text(entries.last())
    }
}

/// Renders the key bindings for the help footer.
pub fn key_maps_stringify(maps: &KeyMaps) -> (r: String)
    ensures
        r@ == key_maps_text(maps@),
{
    let mut out = String::new();
    let len = maps.len();
    let mut i: usize = 0;
    proof {
        assert(maps@.take(0) =~= Seq::<(KeyEventWrapper, Seq<char>)>::empty());
        assert(out@ =~= key_maps_text(maps@.take(0)));
    }
    while i < len
        invariant
            i <= maps@.len(),
            len == maps@.len(),
            out@ == key_maps_text(maps@.take(i as int)),
        decreases len - i,
    {
        let pair = maps.entry(i);
        let label = pair.0.label();
        let part: String = "[".to_owned().concat(label.as_str()).concat("]").concat(
            pair.1.as_str(),
        );
        proof {
            assert(part@ == key_maps_entry_text(maps@[i as int]));
            assert(maps@.take(i + 1).drop_last() =~= maps@.take(i as int));
            assert(maps@.take(i + 1).last() == maps@[i as int]);
        }
        if i == 0 {
            out = part;
        } else {
            out = out.concat("/").concat(part.as_str());
        }
        i = i + 1;
    }
    proof {
        assert(maps@.take(len as int) =~= maps@);
    }
    out
}

/// A screen rectangle, as the drawing layer measures one.
#[derive(Debug, Clone, Copy, PartialEq, Eq, Structural)]
pub struct Rect {
    pub x: u16,
    pub y: u16,
    pub width: u16,
    pub height: u16,
}

/// The rectangle one cell inside `area`: the drawable region within a
/// border.
pub fn get_inner_area(area: &Rect) -> (r: Rect)
    requires
        area.width >= 2,
        area.height >= 2,
        area.x < u16::MAX,
        area.y < u16::MAX,
    ensures
        r.x == area.x + 1,
        r.y == area.y + 1,
        r.width == area.width - 2,
        r.height == area.height - 2,
{
    Rect {
        x: area.x + 1,
        y: area.y + 1,
        width: area.width - 2,
        height: area.height - 2,
    }
}

} // verus!
