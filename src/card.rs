//! Playing cards, jokers, and the on-screen state of one card.
use vstd::prelude::*;
use crate::animation::{idle1, AnimationState, NextAnimation};
use crate::gfx::{DrawIndex, Framebuffer, TWO_BPP_BYTES};
use crate::glyph::{card_texture_spec, suit_colors};
use crate::linalg::{Matrix, Vector, ONE};
use crate::message::{Message, MessageBuffer, Reader, Writer};
use crate::raster::{Texture, TextureColors, Triangle, TriangleFill, CARD_UV0, CARD_UV1};
use crate::transform::{compose_spec, Scale, Transformation};
use crate::util::{Duration, MouseCompound};

verus! {

#[derive(Clone, Copy, Debug, PartialEq, Eq, Structural)]
pub enum Suit {
    Spade,
    Heart,
    Club,
    Diamond,
}

#[derive(Clone, Copy, Debug, PartialEq, Eq, Structural)]
pub enum Rank {
    Two,
    Three,
    Four,
    Five,
    Six,
    Seven,
    Eight,
    Nine,
    Ten,
    Jack,
    Queen,
    King,
    Ace,
}

impl Suit {
    /// Position in the order spade, heart, club, diamond.
    pub open spec fn spec_index(self) -> nat {
        match self {
            Suit::Spade => 0,
            Suit::Heart => 1,
            Suit::Club => 2,
            Suit::Diamond => 3,
        }
    }

    pub fn index(&self) -> (r: usize)
        ensures
            r == self.spec_index(),
    {
        match self {
            Suit::Spade => 0,
            Suit::Heart => 1,
            Suit::Club => 2,
            Suit::Diamond => 3,
        }
    }

    /// The suit at position `i` of the order spade, heart, club, diamond.
    pub fn from_index(i: usize) -> (r: Suit)
        requires
            i < 4,
        ensures
            r.spec_index() == i,
    {
        if i == 0 {
            Suit::Spade
        } else if i == 1 {
            Suit::Heart
        } else if i == 2 {
            Suit::Club
        } else {
            Suit::Diamond
        }
    }
}

impl Rank {
    /// Position from two (0) up to ace (12).
    pub open spec fn spec_index(self) -> nat {
        match self {
            Rank::Two => 0,
            Rank::Three => 1,
            Rank::Four => 2,
            Rank::Five => 3,
            Rank::Six => 4,
            Rank::Seven => 5,
            Rank::Eight => 6,
            Rank::Nine => 7,
            Rank::Ten => 8,
            Rank::Jack => 9,
            Rank::Queen => 10,
            Rank::King => 11,
            Rank::Ace => 12,
        }
    }

    pub fn index(&self) -> (r: usize)
        ensures
            r == self.spec_index(),
    {
        match self {
            Rank::Two => 0,
            Rank::Three => 1,
            Rank::Four => 2,
            Rank::Five => 3,
            Rank::Six => 4,
            Rank::Seven => 5,
            Rank::Eight => 6,
            Rank::Nine => 7,
            Rank::Ten => 8,
            Rank::Jack => 9,
            Rank::Queen => 10,
            Rank::King => 11,
            Rank::Ace => 12,
        }
    }

    pub open spec fn from_index_spec(i: nat) -> Rank {
        if i == 0 { Rank::Two }
        else if i == 1 { Rank::Three }
        else if i == 2 { Rank::Four }
        else if i == 3 { Rank::Five }
        else if i == 4 { Rank::Six }
        else if i == 5 { Rank::Seven }
        else if i == 6 { Rank::Eight }
        else if i == 7 { Rank::Nine }
        else if i == 8 { Rank::Ten }
        else if i == 9 { Rank::Jack }
        else if i == 10 { Rank::Queen }
        else if i == 11 { Rank::King }
        else { Rank::Ace }
    }

    /// The rank at position `i`, two (0) up to ace (12).
    pub fn from_index(i: usize) -> (r: Rank)
        requires
            i < 13,
        ensures
            r.spec_index() == i,
            r == Rank::from_index_spec(i as nat),
    {
        if i == 0 {
            Rank::Two
        } else if i == 1 {
            Rank::Three
        } else if i == 2 {
            Rank::Four
        } else if i == 3 {
            Rank::Five
        } else if i == 4 {
            Rank::Six
        } else if i == 5 {
            Rank::Seven
        } else if i == 6 {
            Rank::Eight
        } else if i == 7 {
            Rank::Nine
        } else if i == 8 {
            Rank::Ten
        } else if i == 9 {
            Rank::Jack
        } else if i == 10 {
            Rank::Queen
        } else if i == 11 {
            Rank::King
        } else {
            Rank::Ace
        }
    }

    /// Points: the number for two to ten, ten for a face, eleven for an ace.
    pub open spec fn spec_value(self) -> u32 {
        match self {
            Rank::Jack | Rank::Queen | Rank::King => 10,
            Rank::Ace => 11,
            _ => (self.spec_index() + 2) as u32,
        }
    }

    pub fn value(&self) -> (r: u32)
        ensures
            r == self.spec_value(),
    {
        match self {
            Rank::Two => 2,
            Rank::Three => 3,
            Rank::Four => 4,
            Rank::Five => 5,
            Rank::Six => 6,
            Rank::Seven => 7,
            Rank::Eight => 8,
            Rank::Nine => 9,
            Rank::Ten => 10,
            Rank::Jack => 10,
            Rank::Queen => 10,
            Rank::King => 10,
            Rank::Ace => 11,
        }
    }
}

#[derive(Clone, Copy, Debug, PartialEq, Eq, Structural)]
pub enum Enhancement {
    Point,
    Mult,
    Stone,
}

#[derive(Clone, Copy, Debug, PartialEq, Eq, Structural)]
pub struct Card {
    pub suit: Suit,
    pub rank: Rank,
    pub enhancement: Option<Enhancement>,
}

impl Card {
    pub fn new(suit: Suit, rank: Rank) -> (r: Card)
        ensures
            r == (Card { suit, rank, enhancement: None }),
    {
        Card { suit, rank, enhancement: None }
    }

    pub fn suit(&self) -> (r: Suit)
        ensures
            r == self.suit,
    {
        self.suit
    }

    pub fn rank(&self) -> (r: Rank)
        ensures
            r == self.rank,
    {
        self.rank
    }

    pub fn enhance(&mut self, enhancement: Enhancement)
        ensures
            *final(self) == (Card { enhancement: Some(enhancement), ..*old(self) }),
    {
        self.enhancement = Some(enhancement);
    }

    pub open spec fn spec_is_face(self) -> bool {
        self.rank == Rank::Jack || self.rank == Rank::Queen || self.rank == Rank::King
    }

    /// Jack, queen and king are faces.
    pub fn is_face(&self) -> (r: bool)
        ensures
            r == self.spec_is_face(),
    {
        match self.rank {
            Rank::Jack | Rank::Queen | Rank::King => true,
            _ => false,
        }
    }
}

/// The points, added multiplier and multiplying factor an effect grants.
#[derive(Clone, Copy, Debug, PartialEq, Eq, Structural)]
pub struct NumberEffect {
    pub points: u32,
    pub mult: u32,
    pub multx: u32,
}

impl Default for NumberEffect {
    /// No points, no added multiplier, a factor of one.
    fn default() -> (r: NumberEffect)
        ensures
            r == (NumberEffect { points: 0, mult: 0, multx: 1 }),
    {
        NumberEffect { points: 0, mult: 0, multx: 1 }
    }
}

#[derive(Clone, Copy, Debug, PartialEq, Eq, Structural)]
pub enum Effect {
    Numbers(NumberEffect),
}

#[derive(Clone, Copy, Debug, PartialEq, Eq, Structural)]
pub enum JokerType {
    Jimbo,
}

/// When a joker takes effect.
#[derive(Clone, Copy, Debug, PartialEq, Eq, Structural)]
pub enum ProcType {
    Passive,
    Blind,
    Normal,
}

#[derive(Clone, Copy, Debug, PartialEq, Eq, Structural)]
pub struct Joker {
    pub kind: JokerType,
    pub proc_type: ProcType,
}

impl Joker {
    pub fn new(kind: JokerType) -> (r: Joker)
        ensures
            r == (Joker { kind, proc_type: ProcType::Normal }),
    {
        Joker { kind, proc_type: ProcType::Normal }
    }
}

/// The colours of a joker's 2-bit texture.
pub open spec fn joker_colors(kind: JokerType) -> TextureColors {
    match kind {
        JokerType::Jimbo => TextureColors::TwoBpp([DrawIndex::Second, DrawIndex::First, DrawIndex::Third, DrawIndex::Fourth]),
    }
}

impl Joker {
    /// The textures of the joker's two triangles; its picture is sampled
    /// from the joker's own 2-bit bitmap.
    pub fn texture(&self) -> (r: [Texture; 2])
        ensures
            r[0] == (Texture { uv: CARD_UV0, colors: joker_colors(self.kind) }),
            r[1] == (Texture { uv: CARD_UV1, colors: joker_colors(self.kind) }),
    {
        let colors = match self.kind {
            JokerType::Jimbo => TextureColors::TwoBpp([DrawIndex::Second, DrawIndex::First, DrawIndex::Third, DrawIndex::Fourth]),
        };
        [Texture { uv: CARD_UV0, colors }, Texture { uv: CARD_UV1, colors }]
    }
}

#[derive(Clone, Copy, Debug, PartialEq, Eq, Structural)]
pub enum CardData {
    Playing(Card),
    Joker(Joker),
}

/// The textures a card's two triangles use.
pub open spec fn data_textures(d: CardData) -> [Texture; 2] {
    match d {
        CardData::Playing(c) => [
            Texture { uv: CARD_UV0, colors: suit_colors(c.suit) },
            Texture { uv: CARD_UV1, colors: suit_colors(c.suit) },
        ],
        CardData::Joker(j) => [
            Texture { uv: CARD_UV0, colors: joker_colors(j.kind) },
            Texture { uv: CARD_UV1, colors: joker_colors(j.kind) },
        ],
    }
}

/// What the shared texture buffer holds once a card has drawn its face.
pub open spec fn data_texels(d: CardData, buf: Seq<u8>) -> Seq<u8> {
    match d {
        CardData::Playing(c) => card_texture_spec(c),
        CardData::Joker(_) => buf,
    }
}

impl CardData {
    /// A playing card draws its face into the shared buffer; a joker leaves
    /// it as it is. Either way the triangles' textures come back.
    pub fn texture(&self, buf: &mut Vec<u8>) -> (r: [Texture; 2])
        requires
            old(buf)@.len() == TWO_BPP_BYTES,
        ensures
            final(buf)@ == data_texels(*self, old(buf)@),
            final(buf)@.len() == TWO_BPP_BYTES,
            r == data_textures(*self),
    {
        match self {
            CardData::Playing(card) => {
                let t = card.texture(buf);
                assert(t =~= data_textures(*self));
                t
            },
            CardData::Joker(joker) => {
                let t = joker.texture();
                assert(t =~= data_textures(*self));
                t
            },
        }
    }
}

#[derive(Clone, Copy, Debug, PartialEq, Eq, Structural)]
pub enum DeckType {
    Default,
}

/// The corner offsets from a card's origin, fixed point, clockwise from top left.
pub open spec fn corner_offsets() -> [[i64; 2]; 4] {
    [
        [(-16 * ONE) as i64, (-21 * ONE) as i64],
        [(16 * ONE) as i64, (-21 * ONE) as i64],
        [(16 * ONE) as i64, (21 * ONE) as i64],
        [(-16 * ONE) as i64, (21 * ONE) as i64],
    ]
}

/// `v / ONE` rounded toward zero, then held to the `i32` range.
pub open spec fn to_pixel(v: int) -> i32 {
    let t = if v >= 0 { v / (ONE as int) } else { -((-v) / (ONE as int)) };
    if t < i32::MIN {
        i32::MIN
    } else if t > i32::MAX {
        i32::MAX
    } else {
        t as i32
    }
}

/// A screen vertex: a transformed corner `(x, y)` plus the origin.
pub open spec fn place(corner: Vector, origin: [i32; 2]) -> [i32; 2] {
    [to_pixel(corner.x + origin[0] * ONE), to_pixel(corner.y + origin[1] * ONE)]
}

/// One card on screen: where it stands, what it shows and how it moves.
pub struct CardState {
    pub id: usize,
    pub card: CardData,
    pub origin: [i32; 2],
    pub diff_vecs: [[i64; 2]; 4],
    pub animation: Option<AnimationState>,
}

impl CardState {
    pub fn new(id: usize, card: CardData, origin: [i32; 2], animation: Option<AnimationState>) -> (r: CardState)
        ensures
            r.id == id,
            r.card == card,
            r.origin == origin,
            r.diff_vecs == corner_offsets(),
            r.animation == animation,
    {
        CardState {
            id,
            card,
            origin,
            diff_vecs: [
                [-16 * ONE, -21 * ONE],
                [16 * ONE, -21 * ONE],
                [16 * ONE, 21 * ONE],
                [-16 * ONE, 21 * ONE],
            ],
            animation,
        }
    }

    /// The matrix the animation gives at `now`; the identity without an
    /// animation or where composition leaves the `i64` range.
    pub open spec fn animate_spec(&self, now: u32) -> Matrix {
        match self.animation {
            None => Matrix::spec_identity(),
            Some(a) => match compose_spec(a.ops(), a.progress_spec(now)) {
                Some(m) => m,
                None => Matrix::spec_identity(),
            },
        }
    }

    pub fn animate(&self, now: u32) -> (r: Matrix)
        ensures
            r == self.animate_spec(now),
    {
        match &self.animation {
            None => Matrix::identity(),
            Some(a) => match a.update(now) {
                Some(m) => m,
                None => Matrix::identity(),
            },
        }
    }

    /// Each corner offset as the point `(x, y, 1)` times `m`; `None` where a
    /// coordinate leaves the `i64` range.
    pub fn apply_transform(&self, m: &Matrix) -> (r: Option<[Vector; 4]>)
        ensures
            r is Some <==> (forall|i: int| 0 <= i < 4 ==> (#[trigger] corner_point(self.diff_vecs, i)).spec_apply(*m) is Some),
            r is Some ==> forall|i: int| 0 <= i < 4 ==> Some(#[trigger] r->Some_0[i]) == corner_point(self.diff_vecs, i).spec_apply(*m),
    {
        let d = &self.diff_vecs;
        let corner0 = Vector { x: d[0][0], y: d[0][1], w: ONE }.apply(m);
        let corner1 = Vector { x: d[1][0], y: d[1][1], w: ONE }.apply(m);
        let corner2 = Vector { x: d[2][0], y: d[2][1], w: ONE }.apply(m);
        let corner3 = Vector { x: d[3][0], y: d[3][1], w: ONE }.apply(m);
        proof {
            assert(corner_point(self.diff_vecs, 0) == Vector { x: d[0][0], y: d[0][1], w: ONE });
            assert(corner_point(self.diff_vecs, 1) == Vector { x: d[1][0], y: d[1][1], w: ONE });
            assert(corner_point(self.diff_vecs, 2) == Vector { x: d[2][0], y: d[2][1], w: ONE });
            assert(corner_point(self.diff_vecs, 3) == Vector { x: d[3][0], y: d[3][1], w: ONE });
        }
        match (corner0, corner1, corner2, corner3) {
            (Some(a), Some(b), Some(c), Some(e)) => Some([a, b, c, e]),
            _ => {
                proof {
                    if corner0 is None {
                        assert(corner_point(self.diff_vecs, 0).spec_apply(*m) is None);
                    } else if corner1 is None {
                        assert(corner_point(self.diff_vecs, 1).spec_apply(*m) is None);
                    } else if corner2 is None {
                        assert(corner_point(self.diff_vecs, 2).spec_apply(*m) is None);
                    } else {
                        assert(corner_point(self.diff_vecs, 3).spec_apply(*m) is None);
                    }
                }
                None
            },
        }
    }

    /// The four screen vertices at `now`: each corner transformed by the
    /// animation's matrix, moved to the origin and cut to whole pixels.
    pub fn vertices(&self, now: u32) -> (r: Option<[[i32; 2]; 4]>)
        ensures
            r == self.vertices_spec(now),
    {
        let m = self.animate(now);
        match self.apply_transform(&m) {
            Some(ps) => {
                let v0 = [pixel_coord(ps[0].x, self.origin[0]), pixel_coord(ps[0].y, self.origin[1])];
                let v1 = [pixel_coord(ps[1].x, self.origin[0]), pixel_coord(ps[1].y, self.origin[1])];
                let v2 = [pixel_coord(ps[2].x, self.origin[0]), pixel_coord(ps[2].y, self.origin[1])];
                let v3 = [pixel_coord(ps[3].x, self.origin[0]), pixel_coord(ps[3].y, self.origin[1])];
                let r = [v0, v1, v2, v3];
                proof {
                    assert(Some(ps[0]) == corner_point(self.diff_vecs, 0).spec_apply(m));
                    assert(Some(ps[1]) == corner_point(self.diff_vecs, 1).spec_apply(m));
                    assert(Some(ps[2]) == corner_point(self.diff_vecs, 2).spec_apply(m));
                    assert(Some(ps[3]) == corner_point(self.diff_vecs, 3).spec_apply(m));
                    assert(r[0] =~= place(ps[0], self.origin));
                    assert(r[1] =~= place(ps[1], self.origin));
                    assert(r[2] =~= place(ps[2], self.origin));
                    assert(r[3] =~= place(ps[3], self.origin));
                    assert(r =~= self.vertices_spec(now)->Some_0);
                }
                Some(r)
            },
            None => {
                proof {
                    assert(!(forall|i: int| 0 <= i < 4 ==> (#[trigger] corner_point(self.diff_vecs, i)).spec_apply(m) is Some));
                    let w = choose|i: int| !(0 <= i < 4 ==> (#[trigger] corner_point(self.diff_vecs, i)).spec_apply(m) is Some);
                    assert(w == 0 || w == 1 || w == 2 || w == 3);
                }
                None
            },
        }
    }

    /// The card as two triangles, top-left/top-right/bottom-left and
    /// top-right/bottom-right/bottom-left, with the given textures.
    pub fn triangles(&self, now: u32, textures: [Texture; 2]) -> (r: Option<[Triangle; 2]>)
        ensures
            r is Some <==> self.vertices_spec(now) is Some,
            r is Some ==> ({
                let v = self.vertices_spec(now)->Some_0;
                let t = r->Some_0;
                &&& t[0].vertices == [v[0], v[1], v[3]]
                &&& t[1].vertices == [v[1], v[2], v[3]]
                &&& t[0].fill == TriangleFill::Texture(textures[0])
                &&& t[1].fill == TriangleFill::Texture(textures[1])
            }),
    {
        match self.vertices(now) {
            Some(v) => Some([
                Triangle { vertices: [v[0], v[1], v[3]], fill: TriangleFill::Texture(textures[0]) },
                Triangle { vertices: [v[1], v[2], v[3]], fill: TriangleFill::Texture(textures[1]) },
            ]),
            None => None,
        }
    }

    /// The screen vertices at `now`, or `None` where a corner leaves the `i64` range.
    pub open spec fn vertices_spec(&self, now: u32) -> Option<[[i32; 2]; 4]> {
        let m = self.animate_spec(now);
        let q0 = corner_point(self.diff_vecs, 0).spec_apply(m);
        let q1 = corner_point(self.diff_vecs, 1).spec_apply(m);
        let q2 = corner_point(self.diff_vecs, 2).spec_apply(m);
        let q3 = corner_point(self.diff_vecs, 3).spec_apply(m);
        if q0 is Some && q1 is Some && q2 is Some && q3 is Some {
            Some([
                place(q0->Some_0, self.origin),
                place(q1->Some_0, self.origin),
                place(q2->Some_0, self.origin),
                place(q3->Some_0, self.origin),
            ])
        } else {
            None
        }
    }

    /// The two triangles at `now` with the given textures.
    pub open spec fn triangles_spec(&self, now: u32, textures: [Texture; 2]) -> Option<[Triangle; 2]> {
        match self.vertices_spec(now) {
            Some(v) => Some([
                Triangle { vertices: [v[0], v[1], v[3]], fill: TriangleFill::Texture(textures[0]) },
                Triangle { vertices: [v[1], v[2], v[3]], fill: TriangleFill::Texture(textures[1]) },
            ]),
            None => None,
        }
    }

    /// Draws the card at frame `now`: its face into the shared texture buffer,
    /// then its two triangles into the framebuffer. Where a corner leaves the
    /// `i64` range nothing is drawn on screen.
    pub fn render(&self, now: u32, buf: &mut Vec<u8>, fb: &mut Framebuffer)
        requires
            old(buf)@.len() == TWO_BPP_BYTES,
            old(fb).wf(),
        ensures
            final(buf)@ == data_texels(self.card, old(buf)@),
            final(fb).wf(),
            final(fb).bytes@ == match self.triangles_spec(now, data_textures(self.card)) {
                Some(t) => t[1].spec_render(final(buf)@, t[0].spec_render(final(buf)@, old(fb).bytes@)),
                None => old(fb).bytes@,
            },
    {
        let textures = self.card.texture(buf);
        proof {
            lemma_card_textures_ready(self.card, buf@);
        }
        match self.triangles(now, textures) {
            Some(t) => {
                assert(t =~= self.triangles_spec(now, textures)->Some_0);
                t[0].render(buf.as_slice(), fb);
                t[1].render(buf.as_slice(), fb);
            },
            None => {},
        }
    }

    /// Whether the mouse lies strictly within the card's resting rectangle.
    pub fn is_hovered(&self, mouse_x: i16, mouse_y: i16) -> (r: bool)
        ensures
            r == (self.origin[0] - 15 < mouse_x < self.origin[0] + 15 && self.origin[1] - 20 < mouse_y < self.origin[1] + 20),
    {
        let x = mouse_x as i64;
        let y = mouse_y as i64;
        let ox = self.origin[0] as i64;
        let oy = self.origin[1] as i64;
        x > ox - 15 && x < ox + 15 && y > oy - 20 && y < oy + 20
    }

    pub fn origin(&self) -> (r: [i32; 2])
        ensures
            r == self.origin,
    {
        self.origin
    }

    pub fn set_origin(&mut self, origin: [i32; 2])
        ensures
            final(self).origin == origin,
            final(self).id == old(self).id,
            final(self).card == old(self).card,
            final(self).diff_vecs == old(self).diff_vecs,
            final(self).animation == old(self).animation,
    {
        self.origin = origin;
    }

    pub fn id(&self) -> (r: usize)
        ensures
            r == self.id,
    {
        self.id
    }

    pub fn set_id(&mut self, id: usize)
        ensures
            final(self).id == id,
            final(self).card == old(self).card,
            final(self).origin == old(self).origin,
            final(self).diff_vecs == old(self).diff_vecs,
            final(self).animation == old(self).animation,
    {
        self.id = id;
    }

    pub fn set_animation(&mut self, animation: AnimationState)
        ensures
            final(self).animation == Some(animation),
            final(self).id == old(self).id,
            final(self).card == old(self).card,
            final(self).origin == old(self).origin,
            final(self).diff_vecs == old(self).diff_vecs,
    {
        self.animation = Some(animation);
    }

    /// Per-tick upkeep at frame `now`: a card without an animation starts the
    /// first idle; an animation that has finished is replaced by the one it
    /// chains into, if any, starting at `now`.
    pub fn update(&mut self, now: u32)
        ensures
            final(self).id == old(self).id,
            final(self).card == old(self).card,
            final(self).origin == old(self).origin,
            final(self).diff_vecs == old(self).diff_vecs,
            final(self).animation is Some,
            ({
                let cur = match old(self).animation {
                    Some(a) => a,
                    None => final(self).animation->Some_0,
                };
                &&& old(self).animation is None ==> final(self).animation->Some_0.is_fresh(crate::animation::NextAnimation::Idle1, now)
                &&& (old(self).animation is Some && !cur.finished_spec(now)) ==> final(self).animation == old(self).animation
                &&& (old(self).animation is Some && cur.finished_spec(now) && cur.next is None) ==> final(self).animation == old(self).animation
                &&& (old(self).animation is Some && cur.finished_spec(now) && cur.next is Some) ==> final(self).animation->Some_0.is_fresh(cur.next->Some_0, now)
            }),
    {
        if self.animation.is_none() {
            self.set_animation(idle1(now));
            return;
        }
        let mut next: Option<AnimationState> = None;
        if let Some(anim) = &self.animation {
            if anim.finished(now) {
                next = anim.get_next(now);
            }
        }
        if let Some(anim) = next {
            self.set_animation(anim);
        }
    }
}

proof fn lemma_card_textures_ready(d: CardData, texels: Seq<u8>)
    requires
        texels.len() == TWO_BPP_BYTES,
    ensures
        data_textures(d)[0].wf() && texels.len() >= data_textures(d)[0].needed_bytes(),
        data_textures(d)[1].wf() && texels.len() >= data_textures(d)[1].needed_bytes(),
{
    let t = data_textures(d);
    assert forall|i: int, j: int| 0 <= i < 3 && 0 <= j < 2 implies 0 <= #[trigger] t[0].uv[i][j] <= ONE by {
        assert(CARD_UV0[0][0] == 0);
    }
    assert forall|i: int, j: int| 0 <= i < 3 && 0 <= j < 2 implies 0 <= #[trigger] t[1].uv[i][j] <= ONE by {
        assert(CARD_UV1[0][0] == ONE);
    }
}

/// Frames of the pop when a card is hovered.
pub const HOVER_FRAMES: u32 = 6;

/// The pop a hovered card makes: from enlarged back to its size.
pub open spec fn hover_ops(d: CardData) -> Seq<Transformation> {
    match d {
        CardData::Playing(_) => seq![Transformation::Scale(Scale { start: [HOVER_SCALE, HOVER_SCALE], end: [ONE, ONE] })],
        CardData::Joker(_) => seq![Transformation::Scale(Scale { start: [(2 * ONE) as i64, (2 * ONE) as i64], end: [ONE, ONE] })],
    }
}

/// How much a hovered playing card is enlarged: 1.3, floored to the fixed-point grid.
pub const HOVER_SCALE: i64 = 85196;

impl CardState {
    /// On a hover message for this card, starts the hover pop at `now`, which
    /// chains into the first idle; any other message changes nothing.
    pub fn handle_message(&mut self, rx: &Reader, buf: &MessageBuffer, now: u32)
        ensures
            final(self).id == old(self).id,
            final(self).card == old(self).card,
            final(self).origin == old(self).origin,
            final(self).diff_vecs == old(self).diff_vecs,
            buf.message == Some(Message::CardHovered(old(self).id)) ==> ({
                let a = final(self).animation->Some_0;
                &&& final(self).animation is Some
                &&& a.ops() == hover_ops(old(self).card)
                &&& a.start == now
                &&& a.duration.0 == HOVER_FRAMES
                &&& a.next == Some(NextAnimation::Idle1)
            }),
            buf.message != Some(Message::CardHovered(old(self).id)) ==> final(self).animation == old(self).animation,
    {
        match rx.read(buf) {
            Some(Message::CardHovered(id)) => {
                if id == self.id {
                    let ops = match self.card {
                        CardData::Playing(_) => [Transformation::Scale(Scale::new([HOVER_SCALE, HOVER_SCALE], [ONE, ONE]))],
                        CardData::Joker(_) => [Transformation::Scale(Scale::new([2 * ONE, 2 * ONE], [ONE, ONE]))],
                    };
                    assert(ops@ =~= hover_ops(self.card));
                    match AnimationState::new(&ops, Duration::from_frames(HOVER_FRAMES), Some(NextAnimation::Idle1), now) {
                        Some(a) => self.set_animation(a),
                        None => {},
                    }
                }
            },
            _ => {},
        }
    }

    /// Over the card, a fresh click sends a click message for it, and the
    /// card sends that it is hovered; the writer keeps only the first message
    /// of the frame.
    pub fn handle_input(&self, mouse: &MouseCompound, tx: &mut Writer, buf: &mut MessageBuffer)
        ensures
            ({
                let m = mouse.current;
                let over = self.origin[0] - 15 < m.x < self.origin[0] + 15 && self.origin[1] - 20 < m.y < self.origin[1] + 20;
                &&& !over ==> *final(tx) == *old(tx) && *final(buf) == *old(buf)
                &&& (over && old(tx).lock) ==> *final(tx) == *old(tx) && *final(buf) == *old(buf)
                &&& (over && !old(tx).lock && mouse.clicked()) ==> final(tx).lock && final(buf).message == Some(Message::CardClicked(self.id))
                &&& (over && !old(tx).lock && !mouse.clicked()) ==> final(tx).lock && final(buf).message == Some(Message::CardHovered(self.id))
            }),
    {
        let m = mouse.state();
        if self.is_hovered(m.x, m.y) {
            if m.left && !mouse.prev().left {
                let _ = tx.write(buf, Message::CardClicked(self.id));
            }
            let _ = tx.write(buf, Message::CardHovered(self.id));
        }
    }
}

/// Two textured triangles over four fixed screen corners.
#[derive(Clone, Copy, Debug)]
pub struct CardView {
    pub texture: [Texture; 2],
    pub vertices: [[i32; 2]; 4],
}

impl CardView {
    pub fn new(texture: [Texture; 2], vertices: [[i32; 2]; 4]) -> (r: CardView)
        ensures
            r.texture == texture,
            r.vertices == vertices,
    {
        CardView { texture, vertices }
    }

    /// The two triangles: corners 0, 1, 3 and corners 1, 2, 3.
    pub open spec fn triangles_spec(&self) -> [Triangle; 2] {
        [
            Triangle { vertices: [self.vertices[0], self.vertices[1], self.vertices[3]], fill: TriangleFill::Texture(self.texture[0]) },
            Triangle { vertices: [self.vertices[1], self.vertices[2], self.vertices[3]], fill: TriangleFill::Texture(self.texture[1]) },
        ]
    }

    /// Rasterizes both triangles, sampling `texels`.
    pub fn render(&self, texels: &[u8], fb: &mut Framebuffer)
        requires
            old(fb).wf(),
            self.triangles_spec()[0].fill_ready(texels@),
            self.triangles_spec()[1].fill_ready(texels@),
        ensures
            final(fb).wf(),
            final(fb).bytes@ == self.triangles_spec()[1].spec_render(texels@, self.triangles_spec()[0].spec_render(texels@, old(fb).bytes@)),
    {
        let t1 = Triangle { vertices: [self.vertices[0], self.vertices[1], self.vertices[3]], fill: TriangleFill::Texture(self.texture[0]) };
        let t2 = Triangle { vertices: [self.vertices[1], self.vertices[2], self.vertices[3]], fill: TriangleFill::Texture(self.texture[1]) };
        assert(t1 =~= self.triangles_spec()[0]);
        assert(t2 =~= self.triangles_spec()[1]);
        t1.render(texels, fb);
        t2.render(texels, fb);
    }
}

/// The homogeneous point of corner `i`.
pub open spec fn corner_point(d: [[i64; 2]; 4], i: int) -> Vector {
    Vector { x: d[i][0], y: d[i][1], w: ONE }
}

/// A transformed coordinate plus an origin coordinate, cut to a whole pixel.
fn pixel_coord(v: i64, origin: i32) -> (r: i32)
    ensures
        r == to_pixel(v + origin * ONE),
{
    let s = v as i128 + (origin as i128) * (ONE as i128);
    let t = if s >= 0 { s / (ONE as i128) } else { -((-s) / (ONE as i128)) };
    if t < i32::MIN as i128 {
        i32::MIN
    } else if t > i32::MAX as i128 {
        i32::MAX
    } else {
        t as i32
    }
}

} // verus!
