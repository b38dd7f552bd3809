//! What a frame draws: the world's entities in render order, the local
//! player, the movable rectangle and the character markers.

use vstd::prelude::*;
use vstd::arithmetic::div_mod::lemma_fundamental_div_mod_converse;
use crate::geometry::{screen_point, to_screen, visible, Point, Position, Rect, CENTER};
use crate::glyph::{cp437, cp437_code, PLAYER_GLYPH};

verus! {

/// A colour, by its red, green and blue parts.
#[derive(Clone, Copy, Debug, PartialEq, Eq, Structural)]
pub struct Colour {
    pub r: u8,
    pub g: u8,
    pub b: u8,
}

/// How an entity of the world is drawn. Of two entities on one cell the one
/// with the lower `render_order` is drawn later, and so ends up on top.
#[derive(Clone, Copy, Debug, PartialEq, Eq, Structural)]
pub struct Renderable {
    pub glyph: u8,
    pub fg: Colour,
    pub bg: Colour,
    pub render_order: i32,
}

/// One glyph to put on one screen cell.
#[derive(Clone, Copy, Debug, PartialEq, Eq, Structural)]
pub struct DrawCell {
    pub x: i32,
    pub y: i32,
    pub fg: Colour,
    pub bg: Colour,
    pub glyph: u8,
}

/// The foreground of every glyph that the client draws by itself.
pub open spec fn white() -> Colour {
    Colour { r: 255, g: 255, b: 255 }
}

/// The background of every glyph that the client draws by itself.
pub open spec fn black() -> Colour {
    Colour { r: 0, g: 0, b: 0 }
}

impl Colour {
    /// White.
    pub fn white() -> (c: Colour)
        ensures
            c == white(),
    {
        Colour { r: 255, g: 255, b: 255 }
    }

    /// Black.
    pub fn black() -> (c: Colour)
        ensures
            c == black(),
    {
        Colour { r: 0, g: 0, b: 0 }
    }
}

/// A white glyph on black at the screen cell `(x, y)`.
pub open spec fn plain_cell(x: int, y: int, glyph: u8) -> DrawCell {
    DrawCell { x: x as i32, y: y as i32, fg: white(), bg: black(), glyph }
}

/// `s` with `e` put behind the last entry whose render order is at least
/// that of `e`.
pub open spec fn insert_by_order(s: Seq<(Point, Renderable)>, e: (Point, Renderable)) -> Seq<
    (Point, Renderable),
>
    decreases s.len(),
{
    if s.len() == 0 {
        seq![e]
    } else if s.last().1.render_order >= e.1.render_order {
        s.push(e)
    } else {
        insert_by_order(s.drop_last(), e).push(s.last())
    }
}

/// The entities in the order in which they are drawn: by descending render
/// order, entities of equal render order in their order of arrival.
pub open spec fn render_sorted(s: Seq<(Point, Renderable)>) -> Seq<(Point, Renderable)>
    decreases s.len(),
{
    if s.len() == 0 {
        Seq::empty()
    } else {
        insert_by_order(render_sorted(s.drop_last()), s.last())
    }
}

/// No entry has a higher render order than an entry before it.
pub open spec fn descending(s: Seq<(Point, Renderable)>) -> bool {
    forall|i: int, j: int| 0 <= i < j < s.len() ==> s[i].1.render_order >= s[j].1.render_order
}

/// The entries of `s` whose render order is `order`, in their order in `s`.
pub open spec fn of_order(s: Seq<(Point, Renderable)>, order: i32) -> Seq<(Point, Renderable)> {
    s.filter(|e: (Point, Renderable)| e.1.render_order == order)
}

proof fn lemma_insert_at(s: Seq<(Point, Renderable)>, e: (Point, Renderable), p: int)
    requires
        0 <= p <= s.len(),
        forall|j: int| p <= j < s.len() ==> s[j].1.render_order < e.1.render_order,
        p > 0 ==> s[p - 1].1.render_order >= e.1.render_order,
    ensures
        insert_by_order(s, e) == s.insert(p, e),
    decreases s.len(),
{
    if s.len() == 0 {
        assert(seq![e] =~= s.insert(p, e));
    } else if p == s.len() {
        assert(s.push(e) =~= s.insert(p, e));
    } else {
        lemma_insert_at(s.drop_last(), e, p);
        assert(s.drop_last().insert(p, e).push(s.last()) =~= s.insert(p, e));
    }
}

proof fn lemma_insert_keeps_descending(s: Seq<(Point, Renderable)>, e: (Point, Renderable))
    requires
        descending(s),
    ensures
        descending(insert_by_order(s, e)),
        insert_by_order(s, e).len() == s.len() + 1,
        insert_by_order(s, e).to_multiset() == s.to_multiset().insert(e),
        forall|k: i32|
            #![trigger of_order(insert_by_order(s, e), k)]
            of_order(insert_by_order(s, e), k) == if k == e.1.render_order {
                of_order(s, k).push(e)
            } else {
                of_order(s, k)
            },
{
    let p = insert_point(s, e);
    lemma_insert_point(s, e);
    lemma_insert_at(s, e, p);
    let t = s.insert(p, e);
    s.insert_ensures(p, e);
    assert(descending(t)) by {
        assert forall|i: int, j: int| 0 <= i < j < t.len() implies t[i].1.render_order
            >= t[j].1.render_order by {
            if j < p {
            } else if j == p {
                assert(t[i] == s[i]);
                if p > 0 {
                    assert(s[i].1.render_order >= s[p - 1].1.render_order);
                }
            } else {
                assert(t[j] == s[j - 1]);
                if i < p {
                    assert(t[i] == s[i]);
                } else if i == p {
                } else {
                    assert(t[i] == s[i - 1]);
                }
            }
        }
    }
    let head = s.subrange(0, p);
    let tail = s.subrange(p, s.len() as int);
    assert(s =~= head + tail);
    assert(t =~= head.push(e) + tail);
    assert(t.to_multiset() == s.to_multiset().insert(e)) by {
        vstd::seq_lib::lemma_multiset_commutative(head, tail);
        vstd::seq_lib::lemma_multiset_commutative(head.push(e), tail);
        head.to_multiset_ensures();
        assert(head.push(e).to_multiset() =~= head.to_multiset().insert(e));
        assert(t.to_multiset() =~= s.to_multiset().insert(e));
    }
    assert forall|k: i32|
        #![trigger of_order(insert_by_order(s, e), k)]
        of_order(insert_by_order(s, e), k) == if k == e.1.render_order {
            of_order(s, k).push(e)
        } else {
            of_order(s, k)
        } by {
        let pred = |x: (Point, Renderable)| x.1.render_order == k;
        Seq::filter_distributes_over_add(head, tail, pred);
        Seq::filter_distributes_over_add(head.push(e), tail, pred);
        head.lemma_filter_push(e, pred);
        if k == e.1.render_order {
            lemma_filter_none(tail, pred);
            assert(head.filter(pred).push(e) + tail.filter(pred) =~= (head.filter(pred)
                + tail.filter(pred)).push(e));
        }
    }
}

proof fn lemma_filter_none(s: Seq<(Point, Renderable)>, pred: spec_fn((Point, Renderable)) -> bool)
    requires
        forall|j: int| 0 <= j < s.len() ==> !pred(#[trigger] s[j]),
    ensures
        s.filter(pred) == Seq::<(Point, Renderable)>::empty(),
    decreases s.len(),
{
    reveal(Seq::filter);
    if s.len() > 0 {
        lemma_filter_none(s.drop_last(), pred);
    }
}

/// Index at which `insert_by_order` puts `e` into `s`.
spec fn insert_point(s: Seq<(Point, Renderable)>, e: (Point, Renderable)) -> int
    decreases s.len(),
{
    if s.len() == 0 {
        0
    } else if s.last().1.render_order >= e.1.render_order {
        s.len() as int
    } else {
        insert_point(s.drop_last(), e)
    }
}

proof fn lemma_insert_point(s: Seq<(Point, Renderable)>, e: (Point, Renderable))
    ensures
        0 <= insert_point(s, e) <= s.len(),
        forall|j: int|
            insert_point(s, e) <= j < s.len() ==> s[j].1.render_order < e.1.render_order,
        insert_point(s, e) > 0 ==> s[insert_point(s, e) - 1].1.render_order
            >= e.1.render_order,
    decreases s.len(),
{
    if s.len() > 0 && s.last().1.render_order < e.1.render_order {
        let r = s.drop_last();
        lemma_insert_point(r, e);
        let p = insert_point(r, e);
        assert forall|j: int| p <= j < s.len() implies s[j].1.render_order
            < e.1.render_order by {
            if j < r.len() {
                assert(s[j] == r[j]);
            }
        }
        if p > 0 {
            assert(s[p - 1] == r[p - 1]);
        }
    }
}

/// The draw order is descending: no entity is drawn before one of a higher
/// render order.
pub proof fn lemma_render_sorted_descending(s: Seq<(Point, Renderable)>)
    ensures
        descending(render_sorted(s)),
    decreases s.len(),
{
    if s.len() > 0 {
        lemma_render_sorted_descending(s.drop_last());
        lemma_insert_keeps_descending(render_sorted(s.drop_last()), s.last());
    }
}

/// The draw order holds exactly the entities that arrived, each as often as
/// it arrived.
pub proof fn lemma_render_sorted_permutes(s: Seq<(Point, Renderable)>)
    ensures
        render_sorted(s).len() == s.len(),
        render_sorted(s).to_multiset() == s.to_multiset(),
    decreases s.len(),
{
    if s.len() > 0 {
        lemma_render_sorted_permutes(s.drop_last());
        lemma_render_sorted_descending(s.drop_last());
        lemma_insert_keeps_descending(render_sorted(s.drop_last()), s.last());
        assert(s.drop_last().push(s.last()) =~= s);
        s.drop_last().to_multiset_ensures();
    } else {
        assert(s =~= Seq::empty());
    }
}

/// The draw order is stable: the entities of one render order are drawn in
/// their order of arrival.
pub proof fn lemma_render_sorted_stable(s: Seq<(Point, Renderable)>, order: i32)
    ensures
        of_order(render_sorted(s), order) == of_order(s, order),
    decreases s.len(),
{
    reveal(Seq::filter);
    if s.len() > 0 {
        lemma_render_sorted_stable(s.drop_last(), order);
        lemma_render_sorted_descending(s.drop_last());
        lemma_insert_keeps_descending(render_sorted(s.drop_last()), s.last());
    }
}

/// Orders the entities for drawing: by descending render order, and by
/// arrival among entities of equal render order.
pub fn sort_by_render_order(map: Vec<(Point, Renderable)>) -> (sorted: Vec<(Point, Renderable)>)
    ensures
        sorted@ == render_sorted(map@),
        descending(sorted@),
        sorted@.to_multiset() == map@.to_multiset(),
        forall|order: i32| #[trigger] of_order(sorted@, order) == of_order(map@, order),
{
    let mut sorted: Vec<(Point, Renderable)> = Vec::new();
    let mut i: usize = 0;
    while i < map.len()
        invariant
            i <= map.len(),
            sorted@ == render_sorted(map@.take(i as int)),
        decreases map.len() - i,
    {
        let e = map[i];
        let mut p: usize = sorted.len();
        while p > 0 && sorted[p - 1].1.render_order < e.1.render_order
            invariant
                p <= sorted.len(),
                forall|j: int| p <= j < sorted.len() ==> sorted@[j].1.render_order < e.1.render_order,
            decreases p,
        {
            p -= 1;
        }
        proof {
            lemma_insert_at(sorted@, e, p as int);
            assert(map@.take(i + 1).drop_last() =~= map@.take(i as int));
        }
        sorted.insert(p, e);
        i += 1;
    }
    proof {
        assert(map@.take(i as int) =~= map@);
        lemma_render_sorted_descending(map@);
        lemma_render_sorted_permutes(map@);
        assert forall|order: i32| #[trigger]
            of_order(render_sorted(map@), order) == of_order(map@, order) by {
            lemma_render_sorted_stable(map@, order);
        }
    }
    sorted
}

/// The cell that draws an entity seen from `player`, or `None` where the
/// entity is outside the visible window.
pub open spec fn entity_cell(e: (Point, Renderable), player: Position) -> Option<DrawCell> {
    if visible(e.0, player) {
        Some(
            DrawCell {
                x: screen_point(e.0, player).x,
                y: screen_point(e.0, player).y,
                fg: e.1.fg,
                bg: e.1.bg,
                glyph: e.1.glyph,
            },
        )
    } else {
        None
    }
}

/// What drawing the world puts on the screen, in drawing order: the cells of
/// the visible entities, taken in render order.
pub open spec fn map_cells(map: Seq<(Point, Renderable)>, player: Position) -> Seq<DrawCell> {
    render_sorted(map).filter_map(|e: (Point, Renderable)| entity_cell(e, player))
}

/// Draws the world around the local player, who stands at `my_pos`: the
/// entities are taken in render order, moved so that the player's position
/// falls on the screen center, and left out where they fall outside the
/// visible window.
pub fn draw_map(map: Vec<(Point, Renderable)>, my_pos: &Position) -> (cells: Vec<DrawCell>)
    ensures
        cells@ == map_cells(map@, *my_pos),
{
    let sorted = sort_by_render_order(map);
    let ghost f = |e: (Point, Renderable)| entity_cell(e, *my_pos);
    let mut cells: Vec<DrawCell> = Vec::new();
    let mut i: usize = 0;
    while i < sorted.len()
        invariant
            i <= sorted.len(),
            f == |e: (Point, Renderable)| entity_cell(e, *my_pos),
            cells@ == sorted@.take(i as int).filter_map(f),
        decreases sorted.len() - i,
    {
        let (pos, render) = sorted[i];
        proof {
            sorted@.lemma_filter_map_take_succ(f, i as int);
        }
        match to_screen(pos, my_pos) {
            Some(at) => {
                cells.push(
                    DrawCell { x: at.x, y: at.y, fg: render.fg, bg: render.bg, glyph: render.glyph },
                );
            },
            None => {},
        }
        i += 1;
    }
    proof {
        assert(sorted@.take(i as int) =~= sorted@);
    }
    cells
}

/// The local player's glyph, white on black at the screen center.
pub fn draw_player() -> (cell: DrawCell)
    ensures
        cell == plain_cell(CENTER as int, CENTER as int, PLAYER_GLYPH),
{
    DrawCell { x: CENTER, y: CENTER, fg: Colour::white(), bg: Colour::black(), glyph: PLAYER_GLYPH }
}

/// Number of cells that a rectangle covers: none where a side is not
/// positive.
pub open spec fn rect_area(rect: Rect) -> nat {
    if rect.width > 0 && rect.height > 0 {
        (rect.width * rect.height) as nat
    } else {
        0
    }
}

/// The cells of a rectangle, column by column from the left, each column from
/// the top, all with one glyph.
pub open spec fn rect_cells(rect: Rect, glyph: u8) -> Seq<DrawCell> {
    Seq::new(
        rect_area(rect),
        |k: int| plain_cell(rect.x + k / (rect.height as int), rect.y + k % (rect.height as int), glyph),
    )
}

/// Whether the far edges of a rectangle are 32-bit coordinates and the
/// number of its cells is a length.
pub open spec fn rect_fits(rect: Rect) -> bool {
    &&& i32::MIN <= rect.x + rect.width <= i32::MAX
    &&& i32::MIN <= rect.y + rect.height <= i32::MAX
    &&& rect_area(rect) <= usize::MAX
}

/// Tells whether a rectangle can be drawn.
pub fn rect_is_drawable(rect: &Rect) -> (fits: bool)
    ensures
        fits == rect_fits(*rect),
{
    let far_x: i64 = rect.x as i64 + rect.width as i64;
    let far_y: i64 = rect.y as i64 + rect.height as i64;
    let low: i64 = i32::MIN as i64;
    let high: i64 = i32::MAX as i64;
    if far_x < low || far_x > high || far_y < low || far_y > high {
        return false;
    }
    if rect.width <= 0 || rect.height <= 0 {
        return true;
    }
    assert(0 < rect.width * rect.height <= 0x7fff_ffff * 0x7fff_ffff) by (nonlinear_arith)
        requires
            0 < rect.width <= 0x7fff_ffff,
            0 < rect.height <= 0x7fff_ffff,
    ;
    let area: u64 = rect.width as u64 * rect.height as u64;
    area <= usize::MAX as u64
}

/// Fills a rectangle with one glyph, white on black.
pub fn fill_rect(rect: &Rect, glyph: u8) -> (cells: Vec<DrawCell>)
    requires
        rect_fits(*rect),
    ensures
        cells@ == rect_cells(*rect, glyph),
{
    let mut cells: Vec<DrawCell> = Vec::new();
    if rect.width <= 0 || rect.height <= 0 {
        assert(cells@ =~= rect_cells(*rect, glyph));
        return cells;
    }
    let ghost h = rect.height as int;
    let mut x: i32 = rect.x;
    while x < rect.width + rect.x
        invariant
            rect_fits(*rect),
            rect.width > 0,
            rect.height > 0,
            h == rect.height,
            rect.x <= x <= rect.x + rect.width,
            cells@.len() == (x - rect.x) * h,
            forall|k: int|
                0 <= k < cells@.len() ==> cells@[k] == plain_cell(
                    rect.x + k / h,
                    rect.y + k % h,
                    glyph,
                ),
        decreases rect.x + rect.width - x,
    {
        let mut y: i32 = rect.y;
        while y < rect.height + rect.y
            invariant
                rect_fits(*rect),
                rect.height > 0,
                h == rect.height,
                rect.x <= x < rect.x + rect.width,
                rect.y <= y <= rect.y + rect.height,
                cells@.len() == (x - rect.x) * h + (y - rect.y),
                forall|k: int|
                    0 <= k < cells@.len() ==> cells@[k] == plain_cell(
                        rect.x + k / h,
                        rect.y + k % h,
                        glyph,
                    ),
            decreases rect.y + rect.height - y,
        {
            proof {
                let k = (x - rect.x) * h + (y - rect.y);
                lemma_fundamental_div_mod_converse(k, h, x - rect.x, y - rect.y);
            }
            cells.push(DrawCell { x, y, fg: Colour::white(), bg: Colour::black(), glyph });
            y += 1;
        }
        proof {
            assert((x - rect.x) * h + h == (x + 1 - rect.x) * h) by (nonlinear_arith);
        }
        x += 1;
    }
    proof {
        assert(x - rect.x == rect.width);
        assert(cells@ =~= rect_cells(*rect, glyph));
    }
    cells
}

/// Draws the movable rectangle: every cell of it with the glyph of `#`.
pub fn draw_rect(rect: &Rect) -> (cells: Vec<DrawCell>)
    requires
        rect_fits(*rect),
    ensures
        cells@ == rect_cells(*rect, cp437_code('#')),
{
    fill_rect(rect, cp437('#'))
}

/// One cell for each character position, in the same order: the screen cell
/// of that position, with one glyph, white on black.
pub open spec fn marker_cells(characters: Seq<Point>, glyph: u8) -> Seq<DrawCell> {
    characters.map_values(|p: Point| plain_cell(p.x as int, p.y as int, glyph))
}

/// Marks each character position with one glyph.
pub fn mark_characters(characters: &Vec<Point>, glyph: u8) -> (cells: Vec<DrawCell>)
    ensures
        cells@ == marker_cells(characters@, glyph),
{
    let mut cells: Vec<DrawCell> = Vec::new();
    let mut i: usize = 0;
    while i < characters.len()
        invariant
            i <= characters.len(),
            cells@ == marker_cells(characters@.take(i as int), glyph),
        decreases characters.len() - i,
    {
        let p = characters[i];
        proof {
            assert(characters@.take(i + 1) =~= characters@.take(i as int).push(p));
            assert(marker_cells(characters@.take(i + 1), glyph) =~= marker_cells(
                characters@.take(i as int),
                glyph,
            ).push(plain_cell(p.x as int, p.y as int, glyph)));
        }
        cells.push(DrawCell { x: p.x, y: p.y, fg: Colour::white(), bg: Colour::black(), glyph });
        i += 1;
    }
    proof {
        assert(characters@.take(i as int) =~= characters@);
    }
    cells
}

/// Draws the character markers: the glyph of `X` at each position.
pub fn draw_characters(characters: &Vec<Point>) -> (cells: Vec<DrawCell>)
    ensures
        cells@ == marker_cells(characters@, cp437_code('X')),
{
    mark_characters(characters, cp437('X'))
}

} // verus!
