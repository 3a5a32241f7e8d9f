//! How deep the value in a payload is nested: a walk over its items, one
//! after the other, that keeps count of the arrays and maps that are open.

use vstd::prelude::*;

verus! {

/// The most arrays and maps that may be open one inside the other.
pub const MAX_NESTING: usize = 128;

/// How many bytes behind a marker hold a length or a count.
pub open spec fn width(marker: u8) -> nat {
    if marker == 0xc4 || marker == 0xc7 || marker == 0xd9 {
        1
    } else if marker == 0xc5 || marker == 0xc8 || marker == 0xda || marker == 0xdc || marker
        == 0xde {
        2
    } else if marker == 0xc6 || marker == 0xc9 || marker == 0xdb || marker == 0xdd || marker
        == 0xdf {
        4
    } else {
        0
    }
}

/// The length or count that the `width` bytes behind the marker at `pos`
/// hold, most significant byte first; 0 where the marker has none.
pub open spec fn announced(bytes: Seq<u8>, pos: int, width: nat) -> nat {
    if width == 1 {
        bytes[pos + 1] as nat
    } else if width == 2 {
        (bytes[pos + 1] * 256 + bytes[pos + 2]) as nat
    } else if width == 4 {
        (bytes[pos + 1] * 16777216 + bytes[pos + 2] * 65536 + bytes[pos + 3] * 256 + bytes[pos
            + 4]) as nat
    } else {
        0
    }
}

/// Whether a marker opens an array or a map.
pub open spec fn is_container(marker: u8) -> bool {
    (0x80 <= marker <= 0x9f) || (0xdc <= marker <= 0xdf)
}

/// How many values stand inside the array or map that a marker opens with
/// the count `n`: the count for an array, twice the count for a map.
pub open spec fn children(marker: u8, n: nat) -> nat {
    if 0x80 <= marker <= 0x8f {
        (2 * (marker - 0x80)) as nat
    } else if 0x90 <= marker <= 0x9f {
        (marker - 0x90) as nat
    } else if marker == 0xdc || marker == 0xdd {
        n
    } else if marker == 0xde || marker == 0xdf {
        2 * n
    } else {
        0
    }
}

/// How many bytes of content follow a marker and its length `n`: the text,
/// the binary data, the extension's type and data, or the number.
pub open spec fn body(marker: u8, n: nat) -> nat {
    if 0xa0 <= marker <= 0xbf {
        (marker - 0xa0) as nat
    } else if marker == 0xc4 || marker == 0xc5 || marker == 0xc6 || marker == 0xd9 || marker
        == 0xda || marker == 0xdb {
        n
    } else if marker == 0xc7 || marker == 0xc8 || marker == 0xc9 {
        n + 1
    } else if marker == 0xcc || marker == 0xd0 {
        1
    } else if marker == 0xcd || marker == 0xd1 || marker == 0xd4 {
        2
    } else if marker == 0xd5 {
        3
    } else if marker == 0xca || marker == 0xce || marker == 0xd2 {
        4
    } else if marker == 0xd6 {
        5
    } else if marker == 0xcb || marker == 0xcf || marker == 0xd3 {
        8
    } else if marker == 0xd7 {
        9
    } else if marker == 0xd8 {
        17
    } else {
        0
    }
}

/// One item of a payload: where it ends, whether it opens an array or a
/// map, and how many values then stand inside.
pub struct Item {
    pub end: int,
    pub container: bool,
    pub children: nat,
}

/// The item that starts at `pos`. An array or a map ends behind its count;
/// every other item ends behind its content. There is none where the
/// payload ends before the item does, or the marker is the one that the
/// format does not use.
pub open spec fn item_at(bytes: Seq<u8>, pos: int) -> Option<Item> {
    if pos < 0 || pos >= bytes.len() {
        None
    } else if bytes[pos] == 0xc1 || pos + 1 + width(bytes[pos]) > bytes.len() {
        None
    } else {
        let marker = bytes[pos];
        let n = announced(bytes, pos, width(marker));
        let end = pos + 1 + width(marker) + body(marker, n);
        if end > bytes.len() {
            None
        } else {
            Some(Item { end, container: is_container(marker), children: children(marker, n) })
        }
    }
}

/// Whether the walk from `pos` on never has more than `MAX_NESTING` arrays
/// and maps open. `open` holds, for an outermost place of one value and
/// then for each open array or map, the outermost first, how many of its
/// values have not begun yet. The walk ends where the outermost value is
/// complete or the payload has no further item.
pub open spec fn shallow_from(bytes: Seq<u8>, pos: int, open: Seq<nat>) -> bool
    decreases 2 * (bytes.len() - pos) + open.len(),
{
    if open.len() == 0 || pos < 0 || pos > bytes.len() {
        true
    } else if open.last() == 0 {
        shallow_from(bytes, pos, open.drop_last())
    } else {
        match item_at(bytes, pos) {
            None => true,
            Some(item) => {
                let begun = open.update(open.len() - 1, (open.last() - 1) as nat);
                if item.container {
                    open.len() <= MAX_NESTING && shallow_from(
                        bytes,
                        item.end,
                        begun.push(item.children),
                    )
                } else {
                    shallow_from(bytes, item.end, begun)
                }
            },
        }
    }
}

/// Whether the value in a payload is nested no deeper than `MAX_NESTING`
/// arrays and maps, as far as the payload holds it.
pub open spec fn shallow(payload: Seq<u8>) -> bool {
    shallow_from(payload, 0, seq![1nat])
}

/// The counts of a walk as natural numbers.
pub open spec fn counts(open: Seq<u64>) -> Seq<nat> {
    open.map_values(|count: u64| count as nat)
}

/// An item as the walk reads it.
pub struct Step {
    pub end: usize,
    pub container: bool,
    pub children: u64,
}

fn width_of(marker: u8) -> (w: usize)
    ensures
        w == width(marker),
{
    if marker == 0xc4 || marker == 0xc7 || marker == 0xd9 {
        1
    } else if marker == 0xc5 || marker == 0xc8 || marker == 0xda || marker == 0xdc || marker
        == 0xde {
        2
    } else if marker == 0xc6 || marker == 0xc9 || marker == 0xdb || marker == 0xdd || marker
        == 0xdf {
        4
    } else {
        0
    }
}

fn children_of(marker: u8, n: u64) -> (c: u64)
    requires
        n <= 0xffff_ffff,
    ensures
        c == children(marker, n as nat),
{
    if 0x80 <= marker && marker <= 0x8f {
        2 * ((marker - 0x80) as u64)
    } else if 0x90 <= marker && marker <= 0x9f {
        (marker - 0x90) as u64
    } else if marker == 0xdc || marker == 0xdd {
        n
    } else if marker == 0xde || marker == 0xdf {
        2 * n
    } else {
        0
    }
}

fn body_of(marker: u8, n: u64) -> (b: u64)
    requires
        n <= 0xffff_ffff,
    ensures
        b == body(marker, n as nat),
        b <= 0x1_0000_0000,
{
    if 0xa0 <= marker && marker <= 0xbf {
        (marker - 0xa0) as u64
    } else if marker == 0xc4 || marker == 0xc5 || marker == 0xc6 || marker == 0xd9 || marker
        == 0xda || marker == 0xdb {
        n
    } else if marker == 0xc7 || marker == 0xc8 || marker == 0xc9 {
        n + 1
    } else if marker == 0xcc || marker == 0xd0 {
        1
    } else if marker == 0xcd || marker == 0xd1 || marker == 0xd4 {
        2
    } else if marker == 0xd5 {
        3
    } else if marker == 0xca || marker == 0xce || marker == 0xd2 {
        4
    } else if marker == 0xd6 {
        5
    } else if marker == 0xcb || marker == 0xcf || marker == 0xd3 {
        8
    } else if marker == 0xd7 {
        9
    } else if marker == 0xd8 {
        17
    } else {
        0
    }
}

/// Reads the item that starts at `pos`.
pub fn read_item(payload: &[u8], pos: usize) -> (r: Option<Step>)
    ensures
        r matches Some(step) ==> item_at(payload@, pos as int) == Some(
            Item {
                end: step.end as int,
                container: step.container,
                children: step.children as nat,
            },
        ),
        r is None ==> item_at(payload@, pos as int) is None,
{
    if pos >= payload.len() {
        return None;
    }
    let marker = payload[pos];
    let w: usize = width_of(marker);
    let left: usize = payload.len() - pos - 1;
    if marker == 0xc1 || w > left {
        return None;
    }
    let n: u64 = if w == 1 {
        payload[pos + 1] as u64
    } else if w == 2 {
        (payload[pos + 1] as u64) * 256 + (payload[pos + 2] as u64)
    } else if w == 4 {
        (payload[pos + 1] as u64) * 16777216 + (payload[pos + 2] as u64) * 65536 + (payload[pos
            + 3] as u64) * 256 + (payload[pos + 4] as u64)
    } else {
        0
    };
    let content: u64 = body_of(marker, n);
    if content > (left - w) as u64 {
        return None;
    }
    let container = (0x80 <= marker && marker <= 0x9f) || (0xdc <= marker && marker <= 0xdf);
    Some(Step { end: pos + 1 + w + content as usize, container, children: children_of(marker, n) })
}

/// Whether the value in a payload is nested no deeper than `MAX_NESTING`
/// arrays and maps. The walk takes one step for each item and one for each
/// array or map that ends, and holds no more counts than the limit and one.
pub fn is_shallow(payload: &[u8]) -> (r: bool)
    ensures
        r == shallow(payload@),
{
    let mut open: Vec<u64> = Vec::new();
    open.push(1);
    let mut pos: usize = 0;
    assert(counts(open@) =~= seq![1nat]);
    loop
        invariant
            pos <= payload.len(),
            open.len() <= MAX_NESTING + 1,
            shallow(payload@) == shallow_from(payload@, pos as int, counts(open@)),
        decreases 2 * (payload.len() - pos) + open.len(),
    {
        let depth = open.len();
        if depth == 0 {
            return true;
        }
        let top = open[depth - 1];
        if top == 0 {
            assert(counts(open@).drop_last() =~= counts(open@.drop_last()));
            open.pop();
        } else {
            match read_item(payload, pos) {
                None => {
                    return true;
                },
                Some(step) => {
                    let ghost before = counts(open@);
                    open.set(depth - 1, top - 1);
                    assert(counts(open@) =~= before.update(
                        before.len() - 1,
                        (before.last() - 1) as nat,
                    ));
                    if step.container {
                        if depth > MAX_NESTING {
                            return false;
                        }
                        assert(counts(open@.push(step.children)) =~= counts(open@).push(
                            step.children as nat,
                        ));
                        open.push(step.children);
                    }
                    pos = step.end;
                },
            }
        }
    }
}

} // verus!
