//! A cell's three records, and the ways a cell is born.
use crate::color::{color_of, createColor};
use crate::direction::DIR;
use crate::gene::{one_bit_apart, Gene};
use crate::mutation::{
    cross_period, gene_inherited, mutate_gene, mutate_period, period_inherited, MutR,
};
use crate::random::{random_ratio, random_time};
use crate::{GridValueT, TimeT};
use vstd::arithmetic::div_mod::lemma_small_mod;
use vstd::prelude::*;

verus! {

/// Where a cell stands and which way it last went.
pub struct MovementData {
    pub x: GridValueT,
    pub y: GridValueT,
    pub lastMoveDir: DIR,
}

impl MovementData {
    pub fn getCoords(&self) -> (r: (GridValueT, GridValueT))
        ensures
            r == (self.x, self.y),
    {
        (self.x, self.y)
    }

    pub fn setCoords(&mut self, coords: (GridValueT, GridValueT))
        ensures
            final(self).x == coords.0,
            final(self).y == coords.1,
            final(self).lastMoveDir == old(self).lastMoveDir,
    {
        self.x = coords.0;
        self.y = coords.1;
    }
}

/// What a cell's network needs beside its wiring: the period of the
/// oscillator that feeds it a square wave.
pub struct NeuronData {
    oscillatorPeriod: TimeT,
}

impl NeuronData {
    /// The oscillator's period, in ticks.
    pub closed spec fn period(&self) -> TimeT {
        self.oscillatorPeriod
    }

    pub fn getOscillatorPeriod(&self) -> (r: TimeT)
        ensures
            r == self.period(),
    {
        self.oscillatorPeriod
    }
}

/// What shows of a cell, and the genome it was born with.
pub struct OtherData {
    pub color: (u8, u8, u8),
    pub isAlive: bool,
    genome: Vec<Gene>,
}

/// What `OtherData` holds, with the genome as a sequence of genes.
pub struct OtherDataView {
    pub color: (u8, u8, u8),
    pub isAlive: bool,
    pub genome: Seq<Gene>,
}

impl View for OtherData {
    type V = OtherDataView;

    closed spec fn view(&self) -> OtherDataView {
        OtherDataView { color: self.color, isAlive: self.isAlive, genome: self.genome@ }
    }
}

impl OtherData {
    pub fn getGenome(&self) -> (r: &Vec<Gene>)
        ensures
            r@ == self@.genome,
    {
        &self.genome
    }

    pub fn getColor(&self) -> (r: (u8, u8, u8))
        ensures
            r == self@.color,
    {
        self.color
    }

    pub fn getIsAlive(&self) -> (r: bool)
        ensures
            r == self@.isAlive,
    {
        self.isAlive
    }
}

/// Whether the three records are those of a cell just born with `genome`
/// and an oscillator period that was `period` before it was reduced: the
/// cell stands at the origin and is alive, its colour is that of the genome,
/// and its period is `period` modulo the ticks of a generation.
pub open spec fn newborn(
    cell: (MovementData, NeuronData, OtherData),
    genome: Seq<Gene>,
    period: TimeT,
    stepsPerGen: TimeT,
) -> bool {
    &&& cell.0.x == 0
    &&& cell.0.y == 0
    &&& cell.1.period() == period % stepsPerGen
    &&& cell.2@.genome == genome
    &&& cell.2@.color == color_of(genome)
    &&& cell.2@.isAlive
}

/// Whether `child` can be the period of a cell born from one with the
/// period `parent`: the parent's period handed on at the given rate, then
/// reduced modulo the ticks of a generation.
pub open spec fn period_born(child: TimeT, parent: TimeT, stepsPerGen: TimeT, rate: MutR) -> bool {
    exists|p: TimeT| #[trigger] period_inherited(p, parent, rate) && child == p % stepsPerGen
}

/// The records of a cell born with the given genome. The direction that it
/// is taken to have gone last is drawn at random.
pub fn new(genome: Vec<Gene>, oscillatorPeriod: TimeT, stepsPerGen: TimeT) -> (r: (
    MovementData,
    NeuronData,
    OtherData,
))
    requires
        genome@.len() > 0,
        stepsPerGen > 0,
    ensures
        newborn(r, genome@, oscillatorPeriod, stepsPerGen),
        r.1.period() < stepsPerGen,
{
    let movementData = MovementData { x: 0, y: 0, lastMoveDir: DIR::get_random() };
    let neuronData = NeuronData { oscillatorPeriod: oscillatorPeriod % stepsPerGen };
    let otherData = OtherData { color: createColor(&genome), genome, isAlive: true };
    (movementData, neuronData, otherData)
}

/// The records of a cell of the first generation: `genomeSize` genes and an
/// oscillator period, all drawn at random.
pub fn newRandom(genomeSize: usize, stepsPerGen: TimeT) -> (r: (MovementData, NeuronData, OtherData))
    requires
        genomeSize > 0,
        stepsPerGen > 0,
    ensures
        r.2@.genome.len() == genomeSize,
        r.1.period() < stepsPerGen,
        r.0.x == 0,
        r.0.y == 0,
        r.2@.color == color_of(r.2@.genome),
        r.2@.isAlive,
{
    let mut genome: Vec<Gene> = Vec::with_capacity(genomeSize);
    let mut i: usize = 0;
    while i < genomeSize
        invariant
            i <= genomeSize,
            genome@.len() == i,
        decreases genomeSize - i,
    {
        genome.push(Gene::newRandom());
        i += 1;
    }
    new(genome, random_time(), stepsPerGen)
}

/// The records of a cell born from two parents. Each gene comes from the
/// same place in one parent or the other, as a coin falls, and is handed on
/// at the mutation rate; the oscillator period likewise comes from one of
/// the two. Both genomes must have `genomeLength` genes.
pub fn sexuallyReproduce(
    cell1: (&OtherData, &NeuronData),
    cell2: (&OtherData, &NeuronData),
    genomeLength: usize,
    stepsPerGen: TimeT,
    mutationRate: MutR,
) -> (r: (MovementData, NeuronData, OtherData))
    requires
        genomeLength > 0,
        cell1.0@.genome.len() == genomeLength,
        cell2.0@.genome.len() == genomeLength,
        stepsPerGen > 0,
    ensures
        r.2@.genome.len() == genomeLength,
        forall|i: int|
            0 <= i < genomeLength ==> gene_inherited(
                #[trigger] r.2@.genome[i],
                cell1.0@.genome[i],
                mutationRate,
            ) || gene_inherited(r.2@.genome[i], cell2.0@.genome[i], mutationRate),
        mutationRate.never() ==> forall|i: int|
            0 <= i < genomeLength ==> #[trigger] r.2@.genome[i] == cell1.0@.genome[i]
                || r.2@.genome[i] == cell2.0@.genome[i],
        mutationRate.always() ==> forall|i: int|
            0 <= i < genomeLength ==> one_bit_apart(
                cell1.0@.genome[i].bits,
                #[trigger] r.2@.genome[i].bits,
            ) || one_bit_apart(cell2.0@.genome[i].bits, r.2@.genome[i].bits),
        period_born(r.1.period(), cell1.1.period(), stepsPerGen, mutationRate) || period_born(
            r.1.period(),
            cell2.1.period(),
            stepsPerGen,
            mutationRate,
        ),
        mutationRate.never() ==> r.1.period() == cell1.1.period() % stepsPerGen || r.1.period()
            == cell2.1.period() % stepsPerGen,
        r.1.period() < stepsPerGen,
        r.0.x == 0,
        r.0.y == 0,
        r.2@.color == color_of(r.2@.genome),
        r.2@.isAlive,
{
    let genes1: &Vec<Gene> = &cell1.0.genome;
    let genes2: &Vec<Gene> = &cell2.0.genome;
    let mut newGenes: Vec<Gene> = Vec::with_capacity(genomeLength);
    let mut i: usize = 0;
    while i < genomeLength
        invariant
            i <= genomeLength,
            genes1@.len() == genomeLength,
            genes2@.len() == genomeLength,
            newGenes@.len() == i,
            forall|j: int|
                0 <= j < i ==> gene_inherited(#[trigger] newGenes@[j], genes1@[j], mutationRate)
                    || gene_inherited(newGenes@[j], genes2@[j], mutationRate),
        decreases genomeLength - i,
    {
        let parent: Gene = Gene::cross_gene(random_ratio(1, 2), genes1[i], genes2[i]);
        newGenes.push(mutate_gene(parent, mutationRate));
        i += 1;
    }
    let parent: TimeT = cross_period(
        random_ratio(1, 2),
        cell1.1.oscillatorPeriod,
        cell2.1.oscillatorPeriod,
    );
    let oscillator: TimeT = mutate_period(parent, mutationRate);
    new(newGenes, oscillator, stepsPerGen)
}

/// The records of a cell born from one parent, of which `cell.0` holds the
/// genome and `cell.1` is the oscillator period. Each gene, and the period,
/// is handed on at the mutation rate. The genome must have `genomeLength`
/// genes.
pub fn asexuallyReproduce(
    cell: (&OtherData, usize),
    genomeLength: usize,
    stepsPerGen: TimeT,
    mutationRate: MutR,
) -> (r: (MovementData, NeuronData, OtherData))
    requires
        genomeLength > 0,
        cell.0@.genome.len() == genomeLength,
        stepsPerGen > 0,
    ensures
        r.2@.genome.len() == genomeLength,
        forall|i: int|
            0 <= i < genomeLength ==> gene_inherited(
                #[trigger] r.2@.genome[i],
                cell.0@.genome[i],
                mutationRate,
            ),
        mutationRate.never() ==> r.2@.genome == cell.0@.genome,
        mutationRate.always() ==> forall|i: int|
            0 <= i < genomeLength ==> one_bit_apart(
                cell.0@.genome[i].bits,
                #[trigger] r.2@.genome[i].bits,
            ),
        period_born(r.1.period(), cell.1, stepsPerGen, mutationRate),
        mutationRate.never() ==> r.1.period() == cell.1 % stepsPerGen,
        mutationRate.never() && cell.1 < stepsPerGen ==> r.1.period() == cell.1,
        r.1.period() < stepsPerGen,
        r.0.x == 0,
        r.0.y == 0,
        r.2@.color == color_of(r.2@.genome),
        r.2@.isAlive,
{
    let genes: &Vec<Gene> = &cell.0.genome;
    let mut newGenes: Vec<Gene> = Vec::with_capacity(genomeLength);
    let mut i: usize = 0;
    while i < genomeLength
        invariant
            i <= genomeLength,
            genes@.len() == genomeLength,
            newGenes@.len() == i,
            forall|j: int|
                0 <= j < i ==> gene_inherited(#[trigger] newGenes@[j], genes@[j], mutationRate),
        decreases genomeLength - i,
    {
        newGenes.push(mutate_gene(genes[i], mutationRate));
        i += 1;
    }
    let oscillator: TimeT = mutate_period(cell.1, mutationRate);
    let r = new(newGenes, oscillator, stepsPerGen);
    proof {
        if mutationRate.never() {
            assert(r.2@.genome =~= cell.0@.genome);
            if cell.1 < stepsPerGen {
                lemma_small_mod(cell.1 as nat, stepsPerGen as nat);
            }
        }
    }
    r
}

} // verus!
