//! The fitness score of a genome against a round's seed.
//!
//! A score is the sum of five parts. Two of them (proximity and sequence)
//! compare the genome with bytes drawn from the seed: first bytes of
//! SHA-256 digests of the seed and the place of a gene. The other three
//! (diversity, balance and pattern) read the genome and the seed
//! directly. Every part is an integer, every division rounds down.
//!
//! Drawing and scoring are kept apart: `draw_targets` and
//! `draw_directions` expand a seed into the bytes that a genome is held
//! against, and `fitness_from_draws` scores a genome against such bytes,
//! wherever they come from. `compute_fitness` does one after the other.
use vstd::prelude::*;
use crate::bits::{distance, lemma_popcount_at_most_eight, popcount, smaller};
use crate::hashing::{parts_view, sha256_of_parts, sha256v};

verus! {

/// The largest number of genes a genome may have.
pub const MAX_GENOME_LEN: usize = 32;

/// No score of a genome of at most `MAX_GENOME_LEN` genes exceeds this.
pub const FITNESS_BOUND: u64 = 255 * 32 + 500 + 500 + 25500 + 930;

/// The byte that gene `index` is measured against: the first byte of the
/// digest of the seed followed by the index as one byte.
pub open spec fn target_byte(seed: Seq<u8>, index: u8) -> u8 {
    sha256_of_parts(seq![seed, seq![index]])[0]
}

/// The byte that decides which way the pair of genes `index`, `index + 1`
/// should run: the first byte of the digest of the seed, the index as one
/// byte, and the byte 255.
pub open spec fn direction_byte(seed: Seq<u8>, index: u8) -> u8 {
    sha256_of_parts(seq![seed, seq![index], seq![0xFFu8]])[0]
}

/// The target bytes of the first `count` genes, in order.
pub open spec fn targets(seed: Seq<u8>, count: nat) -> Seq<u8> {
    Seq::new(count, |i: int| target_byte(seed, i as u8))
}

/// The direction bytes of the first `count` pairs of genes, in order.
pub open spec fn directions(seed: Seq<u8>, count: nat) -> Seq<u8> {
    Seq::new(count, |i: int| direction_byte(seed, i as u8))
}

/// How many pairs of neighbours a genome of `len` genes has.
pub open spec fn pair_count(len: nat) -> nat {
    if len == 0 {
        0
    } else {
        (len - 1) as nat
    }
}

/// What one gene adds to the proximity part: 255 less its distance from
/// the target.
pub open spec fn proximity_term(gene: u8, target: u8) -> int {
    255 - distance(gene as int, target as int)
}

/// The proximity terms of the first `n` genes, added up. Gene `i` is
/// measured against `targets[i]`.
pub open spec fn proximity_prefix(genome: Seq<u8>, targets: Seq<u8>, n: int) -> int
    decreases n,
{
    if n <= 0 {
        0
    } else {
        proximity_prefix(genome, targets, n - 1) + proximity_term(genome[n - 1], targets[n - 1])
    }
}

/// The proximity part of the score.
pub open spec fn proximity(genome: Seq<u8>, targets: Seq<u8>) -> int {
    proximity_prefix(genome, targets, genome.len() as int)
}

/// The first `n` genes, added up.
pub open spec fn gene_sum_prefix(genome: Seq<u8>, n: int) -> int
    decreases n,
{
    if n <= 0 {
        0
    } else {
        gene_sum_prefix(genome, n - 1) + genome[n - 1]
    }
}

/// All genes, added up.
pub open spec fn gene_sum(genome: Seq<u8>) -> int {
    gene_sum_prefix(genome, genome.len() as int)
}

/// The mean gene, rounded down.
pub open spec fn gene_mean(genome: Seq<u8>) -> int {
    gene_sum(genome) / (genome.len() as int)
}

/// The squared distances of the first `n` genes from `mean`, added up.
pub open spec fn squared_deviation_prefix(genome: Seq<u8>, mean: int, n: int) -> int
    decreases n,
{
    if n <= 0 {
        0
    } else {
        squared_deviation_prefix(genome, mean, n - 1) + distance(genome[n - 1] as int, mean)
            * distance(genome[n - 1] as int, mean)
    }
}

/// The variance of the genes about their rounded mean, rounded down.
pub open spec fn gene_variance(genome: Seq<u8>) -> int {
    squared_deviation_prefix(genome, gene_mean(genome), genome.len() as int) / (
    genome.len() as int)
}

/// The diversity part of the score: a tenth of the variance, at most 500.
pub open spec fn diversity(genome: Seq<u8>) -> int {
    smaller(gene_variance(genome) / 10, 500)
}

/// The balance part of the score: 500 when the genes add up to 128 each,
/// less in proportion to how far their sum is from that.
pub open spec fn balance(genome: Seq<u8>) -> int {
    let midpoint = 128 * (genome.len() as int);
    500 * (midpoint - distance(gene_sum(genome), midpoint)) / midpoint
}

/// What one gene adds to the pattern part: ten for every bit in which it
/// differs from the seed byte.
pub open spec fn pattern_term(gene: u8, seed_byte: u8) -> int {
    (popcount(gene ^ seed_byte) * 10) as int
}

/// The pattern terms of the first `n` genes, added up. Gene `i` is held
/// against seed byte `i % 32`.
pub open spec fn pattern_prefix(genome: Seq<u8>, seed: Seq<u8>, n: int) -> int
    decreases n,
{
    if n <= 0 {
        0
    } else {
        pattern_prefix(genome, seed, n - 1) + pattern_term(genome[n - 1], seed[(n - 1) % 32])
    }
}

/// The pattern part of the score.
pub open spec fn pattern(genome: Seq<u8>, seed: Seq<u8>) -> int {
    pattern_prefix(genome, seed, genome.len() as int)
}

/// What one pair of neighbouring genes adds to the sequence part. A draw
/// above 127 asks for an ascending pair (the second gene at least the
/// first), any other draw for a descending one. A pair that runs as asked
/// adds the distance between its genes, at most 30; any other pair adds
/// nothing.
pub open spec fn sequence_term(first: u8, second: u8, draw: u8) -> int {
    if (draw > 127) == (second >= first) {
        smaller(distance(first as int, second as int), 30)
    } else {
        0
    }
}

/// The sequence terms of the first `n` pairs, added up. The pair of genes
/// `i`, `i + 1` runs as `draws[i]` asks or not.
pub open spec fn sequence_prefix(genome: Seq<u8>, draws: Seq<u8>, n: int) -> int
    decreases n,
{
    if n <= 0 {
        0
    } else {
        sequence_prefix(genome, draws, n - 1) + sequence_term(
            genome[n - 1],
            genome[n],
            draws[n - 1],
        )
    }
}

/// The sequence part of the score.
pub open spec fn sequence(genome: Seq<u8>, draws: Seq<u8>) -> int {
    sequence_prefix(genome, draws, genome.len() - 1)
}

/// The score of `genome` against `seed`, given the target byte of every
/// gene and the direction byte of every pair. An empty genome scores
/// nothing.
pub open spec fn fitness_with(
    genome: Seq<u8>,
    seed: Seq<u8>,
    targets: Seq<u8>,
    draws: Seq<u8>,
) -> int {
    if genome.len() == 0 {
        0
    } else {
        proximity(genome, targets) + diversity(genome) + balance(genome) + pattern(genome, seed)
            + sequence(genome, draws)
    }
}

/// The score of `genome` against `seed`: its score given the target and
/// direction bytes drawn from the seed.
pub open spec fn fitness(genome: Seq<u8>, seed: Seq<u8>) -> int {
    fitness_with(
        genome,
        seed,
        targets(seed, genome.len()),
        directions(seed, pair_count(genome.len())),
    )
}

/// The most that a genome of `len` genes can score.
pub open spec fn fitness_limit(len: int) -> int {
    if len <= 0 {
        0
    } else {
        255 * len + 500 + 500 + 80 * len + 30 * (len - 1)
    }
}

/// The proximity of the first `n` genes lies between 0 and 255 for each
/// gene.
pub proof fn lemma_proximity_range(genome: Seq<u8>, targets: Seq<u8>, n: int)
    requires
        0 <= n,
    ensures
        0 <= proximity_prefix(genome, targets, n) <= 255 * n,
    decreases n,
{
    if n > 0 {
        lemma_proximity_range(genome, targets, n - 1);
    }
}

/// The sum of the first `n` genes lies between 0 and 255 for each gene.
pub proof fn lemma_gene_sum_range(genome: Seq<u8>, n: int)
    requires
        0 <= n,
    ensures
        0 <= gene_sum_prefix(genome, n) <= 255 * n,
    decreases n,
{
    if n > 0 {
        lemma_gene_sum_range(genome, n - 1);
    }
}

/// The squared distances of the first `n` genes from a mean between 0 and
/// 255 add up to at most 255 squared for each gene.
pub proof fn lemma_squared_deviation_range(genome: Seq<u8>, mean: int, n: int)
    requires
        0 <= n,
        0 <= mean <= 255,
    ensures
        0 <= squared_deviation_prefix(genome, mean, n) <= 65025 * n,
    decreases n,
{
    if n > 0 {
        lemma_squared_deviation_range(genome, mean, n - 1);
        let d = distance(genome[n - 1] as int, mean);
        assert(0 <= d * d <= 65025) by (nonlinear_arith)
            requires
                0 <= d <= 255,
        ;
    }
}

/// The pattern of the first `n` genes lies between 0 and 80 for each gene.
pub proof fn lemma_pattern_range(genome: Seq<u8>, seed: Seq<u8>, n: int)
    requires
        0 <= n,
    ensures
        0 <= pattern_prefix(genome, seed, n) <= 80 * n,
    decreases n,
{
    if n > 0 {
        lemma_pattern_range(genome, seed, n - 1);
        lemma_popcount_at_most_eight(genome[n - 1] ^ seed[(n - 1) % 32]);
    }
}

/// The sequence part of the first `n` pairs lies between 0 and 30 for each
/// pair.
pub proof fn lemma_sequence_range(genome: Seq<u8>, draws: Seq<u8>, n: int)
    requires
        0 <= n,
    ensures
        0 <= sequence_prefix(genome, draws, n) <= 30 * n,
    decreases n,
{
    if n > 0 {
        lemma_sequence_range(genome, draws, n - 1);
    }
}

/// The mean gene lies between 0 and 255.
pub proof fn lemma_mean_range(genome: Seq<u8>)
    requires
        genome.len() > 0,
    ensures
        0 <= gene_mean(genome) <= 255,
{
    let len = genome.len() as int;
    let sum = gene_sum(genome);
    lemma_gene_sum_range(genome, len);
    assert(0 <= sum / len <= 255) by (nonlinear_arith)
        requires
            len > 0,
            0 <= sum <= 255 * len,
    ;
}

/// The balance part lies between 0 and 500.
pub proof fn lemma_balance_range(genome: Seq<u8>)
    requires
        genome.len() > 0,
    ensures
        0 <= balance(genome) <= 500,
{
    let len = genome.len() as int;
    let midpoint = 128 * len;
    lemma_gene_sum_range(genome, len);
    let room = midpoint - distance(gene_sum(genome), midpoint);
    assert(0 <= (500 * room) / midpoint <= 500) by (nonlinear_arith)
        requires
            midpoint > 0,
            0 <= room <= midpoint,
    ;
}

/// The diversity part lies between 0 and 500.
pub proof fn lemma_diversity_range(genome: Seq<u8>)
    requires
        genome.len() > 0,
    ensures
        0 <= diversity(genome) <= 500,
{
    let len = genome.len() as int;
    lemma_mean_range(genome);
    lemma_squared_deviation_range(genome, gene_mean(genome), len);
    let total = squared_deviation_prefix(genome, gene_mean(genome), len);
    assert(0 <= total / len) by (nonlinear_arith)
        requires
            len > 0,
            0 <= total,
    ;
}

/// Every score lies between 0 and the limit for the genome's length,
/// whatever bytes the genome is held against.
pub proof fn lemma_fitness_with_range(
    genome: Seq<u8>,
    seed: Seq<u8>,
    targets: Seq<u8>,
    draws: Seq<u8>,
)
    ensures
        0 <= fitness_with(genome, seed, targets, draws) <= fitness_limit(genome.len() as int),
{
    let len = genome.len() as int;
    if len > 0 {
        lemma_proximity_range(genome, targets, len);
        lemma_diversity_range(genome);
        lemma_balance_range(genome);
        lemma_pattern_range(genome, seed, len);
        lemma_sequence_range(genome, draws, len - 1);
    }
}

/// Every score lies between 0 and the limit for the genome's length, and so
/// between 0 and `FITNESS_BOUND` for every genome of at most
/// `MAX_GENOME_LEN` genes.
pub proof fn lemma_fitness_range(genome: Seq<u8>, seed: Seq<u8>)
    ensures
        0 <= fitness(genome, seed) <= fitness_limit(genome.len() as int),
        genome.len() <= MAX_GENOME_LEN ==> fitness(genome, seed) <= FITNESS_BOUND,
{
    lemma_fitness_with_range(
        genome,
        seed,
        targets(seed, genome.len()),
        directions(seed, pair_count(genome.len())),
    );
}

/// A score depends on nothing but the genes and the bytes of the seed:
/// genomes with the same genes, scored against seeds with the same bytes,
/// earn the same score.
pub proof fn lemma_fitness_is_pure(
    genome: Seq<u8>,
    seed: Seq<u8>,
    other_genome: Seq<u8>,
    other_seed: Seq<u8>,
)
    requires
        genome.len() == other_genome.len(),
        forall|i: int| 0 <= i < genome.len() ==> genome[i] == other_genome[i],
        seed.len() == other_seed.len(),
        forall|i: int| 0 <= i < seed.len() ==> seed[i] == other_seed[i],
    ensures
        fitness(genome, seed) == fitness(other_genome, other_seed),
{
    assert(genome =~= other_genome);
    assert(seed =~= other_seed);
}

/// Draws the byte that gene `index` is measured against.
pub fn draw_target(seed: &[u8; 32], index: u8) -> (target: u8)
    ensures
        target == target_byte(seed@, index),
{
    let tag: [u8; 1] = [index];
    let parts: [&[u8]; 2] = [seed.as_slice(), tag.as_slice()];
    let digest = sha256v(parts.as_slice());
    proof {
        assert(tag@ =~= seq![index]);
        assert(parts_view(parts@) =~= seq![seed@, seq![index]]);
    }
    digest[0]
}

/// Draws the byte that decides which way the pair of genes `index`,
/// `index + 1` should run.
pub fn draw_direction(seed: &[u8; 32], index: u8) -> (draw: u8)
    ensures
        draw == direction_byte(seed@, index),
{
    let tag: [u8; 1] = [index];
    let mark: [u8; 1] = [0xFF];
    let parts: [&[u8]; 3] = [seed.as_slice(), tag.as_slice(), mark.as_slice()];
    let digest = sha256v(parts.as_slice());
    proof {
        assert(tag@ =~= seq![index]);
        assert(mark@ =~= seq![0xFFu8]);
        assert(parts_view(parts@) =~= seq![seed@, seq![index], seq![0xFFu8]]);
    }
    digest[0]
}

/// Draws the target bytes of the first `count` genes.
pub fn draw_targets(seed: &[u8; 32], count: usize) -> (drawn: Vec<u8>)
    ensures
        drawn@ == targets(seed@, count as nat),
{
    let mut drawn: Vec<u8> = Vec::new();
    let mut i: usize = 0;
    while i < count
        invariant
            i <= count,
            drawn@ == targets(seed@, i as nat),
        decreases count - i,
    {
        drawn.push(draw_target(seed, i as u8));
        i += 1;
        assert(drawn@ =~= targets(seed@, i as nat));
    }
    drawn
}

/// Draws the direction bytes of the first `count` pairs of genes.
pub fn draw_directions(seed: &[u8; 32], count: usize) -> (drawn: Vec<u8>)
    ensures
        drawn@ == directions(seed@, count as nat),
{
    let mut drawn: Vec<u8> = Vec::new();
    let mut i: usize = 0;
    while i < count
        invariant
            i <= count,
            drawn@ == directions(seed@, i as nat),
        decreases count - i,
    {
        drawn.push(draw_direction(seed, i as u8));
        i += 1;
        assert(drawn@ =~= directions(seed@, i as nat));
    }
    drawn
}

/// What one gene adds to the proximity part, given the byte it is measured
/// against.
pub fn proximity_gain(gene: u8, target: u8) -> (gain: u64)
    ensures
        gain == proximity_term(gene, target),
        gain <= 255,
{
    let gap = gene.abs_diff(target);
    255 - gap as u64
}

/// The proximity part of the score: how close each gene is to its target.
pub fn proximity_score(genome: &[u8], targets: &[u8]) -> (score: u64)
    requires
        genome@.len() <= MAX_GENOME_LEN,
        targets@.len() == genome@.len(),
    ensures
        score == proximity(genome@, targets@),
        score <= 255 * genome@.len(),
{
    let mut score: u64 = 0;
    let mut i: usize = 0;
    while i < genome.len()
        invariant
            i <= genome@.len() <= MAX_GENOME_LEN,
            targets@.len() == genome@.len(),
            score == proximity_prefix(genome@, targets@, i as int),
            score <= 255 * i,
        decreases genome@.len() - i,
    {
        score += proximity_gain(genome[i], targets[i]);
        i += 1;
    }
    score
}

/// All genes, added up.
pub fn sum_genes(genome: &[u8]) -> (total: u64)
    requires
        genome@.len() <= MAX_GENOME_LEN,
    ensures
        total == gene_sum(genome@),
        total <= 255 * genome@.len(),
{
    let mut total: u64 = 0;
    let mut i: usize = 0;
    while i < genome.len()
        invariant
            i <= genome@.len() <= MAX_GENOME_LEN,
            total == gene_sum_prefix(genome@, i as int),
            total <= 255 * i,
        decreases genome@.len() - i,
    {
        total += genome[i] as u64;
        i += 1;
    }
    total
}

/// The diversity part of the score: a reward for genes that differ from
/// their mean.
pub fn diversity_bonus(genome: &[u8]) -> (bonus: u64)
    requires
        1 <= genome@.len() <= MAX_GENOME_LEN,
    ensures
        bonus == diversity(genome@),
        bonus <= 500,
{
    let len = genome.len() as u64;
    let mean = sum_genes(genome) / len;
    proof {
        lemma_mean_range(genome@);
    }
    let mut spread: u64 = 0;
    let mut i: usize = 0;
    while i < genome.len()
        invariant
            i <= genome@.len() <= MAX_GENOME_LEN,
            mean <= 255,
            spread == squared_deviation_prefix(genome@, mean as int, i as int),
            spread <= 65025 * i,
        decreases genome@.len() - i,
    {
        let gap = (genome[i] as u64).abs_diff(mean);
        assert(gap * gap <= 65025) by (nonlinear_arith)
            requires
                gap <= 255,
        ;
        spread += gap * gap;
        i += 1;
    }
    let tenth = spread / len / 10;
    if tenth < 500 {
        tenth
    } else {
        500
    }
}

/// The balance part of the score: a reward for genes whose sum is close to
/// 128 for each gene.
pub fn balance_bonus(genome: &[u8]) -> (bonus: u64)
    requires
        1 <= genome@.len() <= MAX_GENOME_LEN,
    ensures
        bonus == balance(genome@),
        bonus <= 500,
{
    let len = genome.len() as u64;
    let total = sum_genes(genome);
    let midpoint = 128 * len;
    let off = total.abs_diff(midpoint);
    proof {
        lemma_balance_range(genome@);
    }
    (500 * (midpoint - off)) / midpoint
}

/// The pattern part of the score: ten for each bit in which a gene differs
/// from the seed byte at its place.
pub fn pattern_score(genome: &[u8], seed: &[u8; 32]) -> (score: u64)
    requires
        genome@.len() <= MAX_GENOME_LEN,
    ensures
        score == pattern(genome@, seed@),
        score <= 80 * genome@.len(),
{
    let mut score: u64 = 0;
    let mut i: usize = 0;
    while i < genome.len()
        invariant
            i <= genome@.len() <= MAX_GENOME_LEN,
            score == pattern_prefix(genome@, seed@, i as int),
            score <= 80 * i,
        decreases genome@.len() - i,
    {
        let mixed = genome[i] ^ seed[i % 32];
        proof {
            lemma_popcount_at_most_eight(mixed);
        }
        score += (mixed.count_ones() as u64) * 10;
        i += 1;
    }
    score
}

/// What one pair of neighbouring genes adds to the sequence part, given
/// the byte drawn for it.
pub fn sequence_gain(first: u8, second: u8, draw: u8) -> (gain: u64)
    ensures
        gain == sequence_term(first, second, draw),
        gain <= 30,
{
    let should_ascend = draw > 127;
    let is_ascending = second >= first;
    if should_ascend == is_ascending {
        let gap = if is_ascending {
            second as u64 - first as u64
        } else {
            first as u64 - second as u64
        };
        if gap < 30 {
            gap
        } else {
            30
        }
    } else {
        0
    }
}

/// The sequence part of the score: a reward for neighbouring genes that
/// run the way the bytes drawn for them ask.
pub fn sequence_score(genome: &[u8], draws: &[u8]) -> (score: u64)
    requires
        genome@.len() <= MAX_GENOME_LEN,
        draws@.len() == pair_count(genome@.len()),
    ensures
        score == sequence(genome@, draws@),
        score <= 30 * pair_count(genome@.len()),
{
    let mut score: u64 = 0;
    if genome.len() > 1 {
        let mut i: usize = 0;
        while i < genome.len() - 1
            invariant
                i <= genome@.len() - 1,
                1 < genome@.len() <= MAX_GENOME_LEN,
                draws@.len() == genome@.len() - 1,
                score == sequence_prefix(genome@, draws@, i as int),
                score <= 30 * i,
            decreases genome@.len() - 1 - i,
        {
            score += sequence_gain(genome[i], genome[i + 1], draws[i]);
            i += 1;
        }
    }
    score
}

/// Scores `genome` against `seed`, given the target byte of every gene
/// and the direction byte of every pair of neighbours: the sum of the
/// proximity, diversity, balance, pattern and sequence parts.
pub fn fitness_from_draws(
    genome: &[u8],
    seed: &[u8; 32],
    targets: &[u8],
    draws: &[u8],
) -> (score: u64)
    requires
        genome@.len() <= MAX_GENOME_LEN,
        targets@.len() == genome@.len(),
        draws@.len() == pair_count(genome@.len()),
    ensures
        score == fitness_with(genome@, seed@, targets@, draws@),
        score <= fitness_limit(genome@.len() as int),
        score <= FITNESS_BOUND,
{
    if genome.len() == 0 {
        return 0;
    }
    let proximity_score = proximity_score(genome, targets);
    let diversity_bonus = diversity_bonus(genome);
    let balance_bonus = balance_bonus(genome);
    let pattern_score = pattern_score(genome, seed);
    let sequence_score = sequence_score(genome, draws);
    proximity_score + diversity_bonus + balance_bonus + pattern_score + sequence_score
}

/// Scores `genome` against `round_seed`: the sum of the proximity,
/// diversity, balance, pattern and sequence parts, with the target and
/// direction bytes drawn from the seed. The same genome and seed always
/// give the same score.
pub fn compute_fitness(genome: &[u8], round_seed: &[u8; 32]) -> (score: u64)
    requires
        genome@.len() <= MAX_GENOME_LEN,
    ensures
        score == fitness(genome@, round_seed@),
        score <= fitness_limit(genome@.len() as int),
        score <= FITNESS_BOUND,
{
    if genome.len() == 0 {
        return 0;
    }
    let targets = draw_targets(round_seed, genome.len());
    let draws = draw_directions(round_seed, genome.len() - 1);
    fitness_from_draws(genome, round_seed, targets.as_slice(), draws.as_slice())
}

} // verus!
