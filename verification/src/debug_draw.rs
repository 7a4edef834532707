use vstd::prelude::*;

use crate::types::{ShapeId, ShapeType};

verus! {

/// The packed `0xRRGGBB` value of red, green and blue components.
pub open spec fn packed_rgb(red: u8, green: u8, blue: u8) -> int {
    red * 0x10000 + green * 0x100 + blue
}

/// Packed RGB color used by debug drawing: a `0xRRGGBB` value, never above `0xffffff`.
#[derive(Clone, Copy, Debug, PartialEq, Eq, Structural, Hash)]
pub struct HexColor(u32);

impl HexColor {
    /// Black.
    pub fn black() -> (c: Self)
        ensures
            c.spec_rgb() == 0x000000,
    {
        HexColor(0x000000)
    }

    /// White.
    pub fn white() -> (c: Self)
        ensures
            c.spec_rgb() == 0xffffff,
    {
        HexColor(0xffffff)
    }

    /// Red.
    pub fn red() -> (c: Self)
        ensures
            c.spec_rgb() == 0xff0000,
    {
        HexColor(0xff0000)
    }

    /// Green.
    pub fn green() -> (c: Self)
        ensures
            c.spec_rgb() == 0x00ff00,
    {
        HexColor(0x00ff00)
    }

    /// Blue.
    pub fn blue() -> (c: Self)
        ensures
            c.spec_rgb() == 0x0000ff,
    {
        HexColor(0x0000ff)
    }

    /// The packed `0xRRGGBB` value.
    pub closed spec fn spec_rgb(self) -> u32 {
        self.0
    }

    #[verifier::type_invariant]
    spec fn fits_rgb(self) -> bool {
        self.0 <= 0xffffff
    }

    /// A color from red, green, and blue components.
    pub fn from_rgb(red: u8, green: u8, blue: u8) -> (c: Self)
        ensures
            c.spec_rgb() == packed_rgb(red, green, blue),
    {
        let value: u32 = ((red as u32) << 16u32) | ((green as u32) << 8u32) | (blue as u32);
        proof {
            let r = red as u32;
            let g = green as u32;
            let b = blue as u32;
            assert((r << 16u32) | (g << 8u32) | b == r * 0x10000 + g * 0x100 + b) by (bit_vector)
                requires
                    r <= 0xff,
                    g <= 0xff,
                    b <= 0xff,
            ;
        }
        HexColor(value)
    }

    /// A color from a packed `0xRRGGBB` value; bits above the low 24 are dropped.
    pub fn from_rgb_u32(rgb: u32) -> (c: Self)
        ensures
            c.spec_rgb() == rgb % 0x1000000,
    {
        let value: u32 = rgb & 0x00ff_ffff;
        proof {
            assert(rgb & 0x00ff_ffff == rgb % 0x1000000) by (bit_vector);
        }
        HexColor(value)
    }

    /// This color as a packed `0xRRGGBB` value.
    pub fn rgb_u32(self) -> (rgb: u32)
        ensures
            rgb == self.spec_rgb(),
            rgb <= 0xffffff,
    {
        proof {
            use_type_invariant(&self);
        }
        self.0
    }
}

impl Default for HexColor {
    /// Black.
    fn default() -> (c: Self)
        ensures
            c.spec_rgb() == 0,
    {
        HexColor(0)
    }
}

/// Each component of a color built from components is read back from its packed value: red
/// from bits 16..24, green from bits 8..16, blue from bits 0..8.
pub proof fn lemma_rgb_components(red: u8, green: u8, blue: u8)
    ensures
        ({
            let v = packed_rgb(red, green, blue) as u32;
            &&& packed_rgb(red, green, blue) <= 0xffffff
            &&& v >> 16u32 == red as u32
            &&& (v >> 8u32) & 0xff == green as u32
            &&& v & 0xff == blue as u32
        }),
{
    let r = red as u32;
    let g = green as u32;
    let b = blue as u32;
    assert(r * 0x10000 + g * 0x100 + b <= 0xffffff) by (nonlinear_arith)
        requires
            r <= 0xff,
            g <= 0xff,
            b <= 0xff,
    ;
    let v = (r * 0x10000 + g * 0x100 + b) as u32;
    assert(v >> 16u32 == r && (v >> 8u32) & 0xff == g && v & 0xff == b) by (bit_vector)
        requires
            r <= 0xff,
            g <= 0xff,
            b <= 0xff,
            v == r * 0x10000 + g * 0x100 + b,
    ;
}

/// A color is determined by its packed value: two colors with the same `0xRRGGBB` value are
/// equal.
pub proof fn lemma_color_determined(a: HexColor, b: HexColor)
    requires
        a.spec_rgb() == b.spec_rgb(),
    ensures
        a == b,
{
}

/// Re-packing a color's value gives the same color: the value already fits in 24 bits.
pub proof fn lemma_rgb_roundtrip(rgb: u32)
    requires
        rgb <= 0xffffff,
    ensures
        rgb % 0x1000000 == rgb,
{
}

/// Debug shape handle created for a shape while drawing.
#[derive(Clone, Copy, Debug, PartialEq, Eq, Structural)]
pub struct DebugShape {
    /// Shape associated with the handle.
    pub shape_id: ShapeId,
    /// Shape type reported by the engine, when known.
    pub shape_type: Option<ShapeType>,
}

/// Collects the commands of one debug-draw pass into a reused buffer: the buffer's old entries
/// are overwritten in place, new ones appended, and leftovers dropped when the pass finishes.
#[derive(Debug)]
pub struct CollectDebugDraw<T> {
    commands: Vec<T>,
    len: usize,
}

impl<T> CollectDebugDraw<T> {
    /// The commands collected so far in this pass.
    pub closed spec fn collected(&self) -> Seq<T> {
        self.commands@.take(self.len as int)
    }

    /// The entries of the reused buffer not yet overwritten in this pass.
    pub closed spec fn stale(&self) -> Seq<T> {
        self.commands@.skip(self.len as int)
    }

    pub closed spec fn wf(&self) -> bool {
        self.len <= self.commands@.len()
    }

    /// Starts a pass that reuses `commands` as storage.
    pub fn new(commands: Vec<T>) -> (c: Self)
        ensures
            c.wf(),
            c.collected() == Seq::<T>::empty(),
            c.stale() == commands@,
    {
        let c = CollectDebugDraw { commands, len: 0 };
        proof {
            assert(c.commands@.take(0) =~= Seq::<T>::empty());
            assert(c.commands@.skip(0) =~= c.commands@);
        }
        c
    }

    /// Adds one command: it overwrites the next stale entry, or is appended when none is left.
    pub fn replace_or_push(&mut self, command: T)
        requires
            old(self).wf(),
            old(self).collected().len() < usize::MAX,
        ensures
            final(self).wf(),
            final(self).collected() == old(self).collected().push(command),
            final(self).stale() == (if old(self).stale().len() > 0 {
                old(self).stale().drop_first()
            } else {
                Seq::<T>::empty()
            }),
    {
        let ghost old_commands = self.commands@;
        if self.len < self.commands.len() {
            self.commands.set(self.len, command);
        } else {
            self.commands.push(command);
        }
        self.len = self.len + 1;
        proof {
            assert(self.commands@.take(self.len as int) =~= old_commands.take(self.len - 1).push(
                command,
            ));
            if old_commands.len() > self.len - 1 {
                assert(self.commands@.skip(self.len as int) =~= old_commands.skip(self.len - 1).drop_first());
            } else {
                assert(self.commands@.skip(self.len as int) =~= Seq::<T>::empty());
            }
        }
    }

    /// Ends the pass: the buffer holds exactly the commands collected, in order.
    pub fn finish(self) -> (commands: Vec<T>)
        requires
            self.wf(),
        ensures
            commands@ == self.collected(),
    {
        let mut commands = self.commands;
        commands.truncate(self.len);
        commands
    }
}

/// A whole collecting pass: `passes[0]` is a freshly started collector and each later state adds
/// the next of the `issued` commands. At the end exactly the issued commands are collected, in
/// order, whatever the reused buffer held before; finishing then yields them with no stale tail.
pub proof fn lemma_pass_collects_issued<T>(passes: Seq<CollectDebugDraw<T>>, issued: Seq<T>)
    requires
        passes.len() == issued.len() + 1,
        passes[0].collected() == Seq::<T>::empty(),
        forall|i: int| #![trigger issued[i]]
            0 <= i < issued.len() ==> passes[i + 1].collected() == passes[i].collected().push(issued[i]),
    ensures
        passes.last().collected() == issued,
{
    lemma_pass_prefix(passes, issued, issued.len() as int);
    assert(issued.take(issued.len() as int) =~= issued);
}

proof fn lemma_pass_prefix<T>(passes: Seq<CollectDebugDraw<T>>, issued: Seq<T>, k: int)
    requires
        passes.len() == issued.len() + 1,
        passes[0].collected() == Seq::<T>::empty(),
        forall|i: int| #![trigger issued[i]]
            0 <= i < issued.len() ==> passes[i + 1].collected() == passes[i].collected().push(issued[i]),
        0 <= k <= issued.len(),
    ensures
        passes[k].collected() == issued.take(k),
    decreases k,
{
    if k == 0 {
        assert(issued.take(0) =~= Seq::<T>::empty());
    } else {
        lemma_pass_prefix(passes, issued, k - 1);
        let c = issued[k - 1];
        assert(issued.take(k) =~= issued.take(k - 1).push(c));
    }
}

} // verus!
