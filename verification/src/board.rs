//! The two engines: one population and a scratch copy, or two buffers that
//! take turns.
use vstd::prelude::*;
use crate::engine::_compute_next_gen;
use crate::population::{all_dead, cells, has_shape, step, Population};
use crate::render::{population_text, _print_population};

verus! {

/// A game that owns a single population and replaces it as a whole on every
/// transition.
pub struct ConwayBoard<const H: usize, const W: usize> {
    population: [[bool; W]; H],
}

impl<const H: usize, const W: usize> View for ConwayBoard<H, W> {
    type V = Population;

    /// The current generation.
    closed spec fn view(&self) -> Population {
        cells(self.population)
    }
}

impl<const H: usize, const W: usize> ConwayBoard<H, W> {
    /// A game whose first generation is `init`.
    pub fn new(init: [[bool; W]; H]) -> (board: ConwayBoard<H, W>)
        ensures
            board@ == cells(init),
    {
        ConwayBoard { population: init }
    }

    /// Advances the game by one generation. The new generation is computed
    /// into a copy and replaces the old one as a whole.
    pub fn next(&mut self)
        ensures
            final(self)@ == step(old(self)@),
    {
        let mut next_gen = self.population;
        _compute_next_gen(&self.population, &mut next_gen);
        self.population = next_gen;
    }

    /// The current generation, to read.
    pub fn population(&self) -> (pop: &[[bool; W]; H])
        ensures
            cells(*pop) == self@,
    {
        &self.population
    }

    /// The population of a board has `H` rows of `W` cells at all times.
    pub proof fn lemma_shape(self)
        ensures
            has_shape(self@, H as nat, W as nat),
    {
    }

    /// The picture of the current generation.
    pub fn render(&self) -> (text: String)
        ensures
            text@ == population_text(self@),
    {
        _print_population(&self.population)
    }
}

/// A game that owns two populations and computes each generation from the
/// current one into the other, without copying.
pub struct ConwayBoardDoubleBuf<const H: usize, const W: usize> {
    buffers: [[[bool; W]; H]; 2],
    curr: usize,
}

impl<const H: usize, const W: usize> View for ConwayBoardDoubleBuf<H, W> {
    type V = Population;

    /// The current generation: what the selected buffer holds.
    closed spec fn view(&self) -> Population {
        cells(self.buffers[self.curr as int])
    }
}

impl<const H: usize, const W: usize> ConwayBoardDoubleBuf<H, W> {
    /// The selector always names one of the two buffers.
    #[verifier::type_invariant]
    spec fn selects_a_buffer(&self) -> bool {
        self.curr < 2
    }

    /// Which of the two buffers holds the current generation: 0 or 1.
    pub closed spec fn selected(&self) -> int {
        self.curr as int
    }

    /// What the buffer that is not selected holds. The next transition
    /// overwrites it.
    pub closed spec fn spare(&self) -> Population {
        cells(self.buffers[1 - self.curr])
    }

    /// A game whose first generation is `init`. It is held in buffer 0; the
    /// other buffer starts without a live cell.
    pub fn new(init: [[bool; W]; H]) -> (board: ConwayBoardDoubleBuf<H, W>)
        ensures
            board@ == cells(init),
            board.selected() == 0,
            board.spare() == all_dead(H as nat, W as nat),
    {
        let mut buffers = [[[false; W]; H]; 2];
        buffers[0] = init;

        proof {
            assert(cells(buffers[1]) =~~= all_dead(H as nat, W as nat));
        }
        ConwayBoardDoubleBuf { buffers, curr: 0 }
    }

    /// Advances the game by one generation. The new generation is computed
    /// from the selected buffer into the other one, which is then selected;
    /// the old generation stays behind in the buffer that was read.
    pub fn next(&mut self)
        ensures
            final(self)@ == step(old(self)@),
            final(self).spare() == old(self)@,
            final(self).selected() == 1 - old(self).selected(),
            0 <= final(self).selected() <= 1,
    {
        proof {
            use_type_invariant(&*self);
        }
        let next = (self.curr + 1) % 2;
        let bufs = self.buffers.split_at_mut(1);

        if next == 1 {
            _compute_next_gen(&bufs.0[0], &mut bufs.1[0]);
        } else {
            _compute_next_gen(&bufs.1[0], &mut bufs.0[0]);
        }

        self.curr = next;
    }

    /// The current generation, to read.
    pub fn population(&self) -> (pop: &[[bool; W]; H])
        ensures
            cells(*pop) == self@,
    {
        proof {
            use_type_invariant(self);
        }
        &self.buffers[self.curr]
    }

    /// Both populations of a board have `H` rows of `W` cells at all times.
    pub proof fn lemma_shape(self)
        ensures
            has_shape(self@, H as nat, W as nat),
            has_shape(self.spare(), H as nat, W as nat),
    {
    }

    /// The picture of the current generation.
    pub fn render(&self) -> (text: String)
        ensures
            text@ == population_text(self@),
    {
        proof {
            use_type_invariant(self);
        }
        _print_population(&self.buffers[self.curr])
    }
}

} // verus!
