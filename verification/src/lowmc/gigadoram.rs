//! The LowMC instance of the DORAM PRF given as a boolean circuit in the
//! Bristol format: parsing the circuit, evaluating it in the clear, and
//! encrypting a block under an expanded key with it.
use vstd::prelude::*;
use vstd::slice::{slice_subrange, slice_to_vec};

use crate::lowmc::bits::{
    bit_u128, lemma_set_bit_u128, lemma_u128_bits_injective, lemma_zero_u128, u128_to_bit_seq,
};
use crate::lowmc::bristol::{
    all_parse, bytes_eq, next_token_line, parse_usizes, parsed_values, token_lines, word_views,
};

verus! {

/// Why a circuit could not be read, or a block could not be encrypted.
#[derive(Clone, Copy, Debug, PartialEq, Eq, Structural)]
pub enum CircuitError {
    /// The text has no line counting gates and wires.
    MissingSizeHeader,
    /// The first line is not two integers.
    InvalidSizeHeader,
    /// The text has no line with the input sizes.
    MissingInputHeader,
    /// The input line is not a count followed by that many sizes.
    InvalidInputHeader,
    /// The text has no line with the output sizes.
    MissingOutputHeader,
    /// The output line is not a count followed by that many sizes.
    InvalidOutputHeader,
    /// A gate line is not a well-formed XOR, AND, INV or MAND gate.
    InvalidGate,
    /// The number of gate lines differs from the count in the first line.
    GateCountMismatch,
    /// The circuit does not take an expanded key and then a block.
    UnexpectedInputs,
    /// The circuit does not give one block as output.
    UnexpectedOutputs,
    /// The number of input blocks differs from the circuit's.
    WrongInputCount,
    /// An input block has another size than the circuit's.
    WrongInputSize,
    /// A gate reads or writes a wire past the end of the wires.
    WireOutOfBounds,
    /// The outputs are more than the wires.
    OutputTooLarge,
    /// The expanded key does not have one bit per key bit of every round.
    WrongKeyLength,
    /// The block does not have one bit per block bit.
    WrongBlockLength,
}

/// A gate of a boolean circuit, on wire indices.
#[derive(Clone, Debug)]
pub enum Gate {
    Xor { lhs: usize, rhs: usize, output: usize },
    And { lhs: usize, rhs: usize, output: usize },
    Inv { input: usize, output: usize },
    Mand { lhs: Vec<usize>, rhs: Vec<usize>, outputs: Vec<usize> },
}

/// The mathematical form of a gate.
#[verifier::ext_equal]
pub enum GateModel {
    Xor { lhs: usize, rhs: usize, output: usize },
    And { lhs: usize, rhs: usize, output: usize },
    Inv { input: usize, output: usize },
    Mand { lhs: Seq<usize>, rhs: Seq<usize>, outputs: Seq<usize> },
}

impl View for Gate {
    type V = GateModel;

    open spec fn view(&self) -> GateModel {
        match self {
            Gate::Xor { lhs, rhs, output } => GateModel::Xor { lhs: *lhs, rhs: *rhs, output: *output },
            Gate::And { lhs, rhs, output } => GateModel::And { lhs: *lhs, rhs: *rhs, output: *output },
            Gate::Inv { input, output } => GateModel::Inv { input: *input, output: *output },
            Gate::Mand { lhs, rhs, outputs } => GateModel::Mand {
                lhs: lhs@,
                rhs: rhs@,
                outputs: outputs@,
            },
        }
    }
}

/// The mathematical form of a circuit.
#[verifier::ext_equal]
pub struct CircuitModel {
    pub num_wires: usize,
    pub input_sizes: Seq<usize>,
    pub output_sizes: Seq<usize>,
    pub gates: Seq<GateModel>,
}

/// Names of gate kinds in the format.
pub open spec fn name_xor() -> Seq<u8> {
    seq![88u8, 79u8, 82u8]
}

pub open spec fn name_and() -> Seq<u8> {
    seq![65u8, 78u8, 68u8]
}

pub open spec fn name_inv() -> Seq<u8> {
    seq![73u8, 78u8, 86u8]
}

pub open spec fn name_mand() -> Seq<u8> {
    seq![77u8, 65u8, 78u8, 68u8]
}

/// A gate line: its integers, then its name. XOR and AND take `2 1 a b out`,
/// INV takes `1 1 a out`, MAND takes `2k k` followed by `k` left inputs,
/// `k` right inputs and `k` outputs.
pub open spec fn parse_gate(ws: Seq<Seq<u8>>) -> Option<GateModel> {
    if ws.len() == 0 || !all_parse(ws.drop_last()) {
        None
    } else {
        let kind = ws.last();
        let nums = parsed_values(ws.drop_last());
        if kind == name_xor() {
            if nums.len() == 5 && nums[0] == 2 && nums[1] == 1 {
                Some(GateModel::Xor { lhs: nums[2], rhs: nums[3], output: nums[4] })
            } else {
                None
            }
        } else if kind == name_and() {
            if nums.len() == 5 && nums[0] == 2 && nums[1] == 1 {
                Some(GateModel::And { lhs: nums[2], rhs: nums[3], output: nums[4] })
            } else {
                None
            }
        } else if kind == name_inv() {
            if nums.len() == 4 && nums[0] == 1 && nums[1] == 1 {
                Some(GateModel::Inv { input: nums[2], output: nums[3] })
            } else {
                None
            }
        } else if kind == name_mand() {
            if nums.len() >= 2 && nums[0] == 2 * nums[1] && nums.len() == 2 + 3 * nums[1] {
                let k = nums[1] as int;
                Some(
                    GateModel::Mand {
                        lhs: nums.subrange(2, 2 + k),
                        rhs: nums.subrange(2 + k, 2 + 2 * k),
                        outputs: nums.subrange(2 + 2 * k, nums.len() as int),
                    },
                )
            } else {
                None
            }
        } else {
            None
        }
    }
}

/// An input or output line: a count `n` followed by `n` sizes.
pub open spec fn parse_io_sizes(ws: Seq<Seq<u8>>) -> Option<Seq<usize>> {
    let nums = parsed_values(ws);
    if all_parse(ws) && nums.len() > 0 && nums.len() == nums[0] + 1 {
        Some(nums.skip(1))
    } else {
        None
    }
}

/// A circuit in the Bristol format: a line counting gates and wires,
/// a line with the input sizes, a line with the output sizes, then one line
/// per gate; blank lines do not count.
pub open spec fn parse_circuit(text: Seq<u8>) -> Result<CircuitModel, CircuitError> {
    let ls = token_lines(text);
    if ls.len() < 1 {
        Err(CircuitError::MissingSizeHeader)
    } else if !(all_parse(ls[0]) && ls[0].len() == 2) {
        Err(CircuitError::InvalidSizeHeader)
    } else if ls.len() < 2 {
        Err(CircuitError::MissingInputHeader)
    } else if parse_io_sizes(ls[1]) is None {
        Err(CircuitError::InvalidInputHeader)
    } else if ls.len() < 3 {
        Err(CircuitError::MissingOutputHeader)
    } else if parse_io_sizes(ls[2]) is None {
        Err(CircuitError::InvalidOutputHeader)
    } else if exists|i: int| 3 <= i < ls.len() && #[trigger] parse_gate(ls[i]) is None {
        Err(CircuitError::InvalidGate)
    } else if ls.len() - 3 != parsed_values(ls[0])[0] {
        Err(CircuitError::GateCountMismatch)
    } else {
        Ok(
            CircuitModel {
                num_wires: parsed_values(ls[0])[1],
                input_sizes: parse_io_sizes(ls[1])->0,
                output_sizes: parse_io_sizes(ls[2])->0,
                gates: Seq::new((ls.len() - 3) as nat, |i: int| parse_gate(ls[i + 3])->0),
            },
        )
    }
}

/// Write `vals[k]` to wire `outs[k]` for each `k < n` in turn; `None` if a
/// wire is out of range.
pub open spec fn set_wires(w: Seq<bool>, outs: Seq<usize>, vals: Seq<bool>, n: nat) -> Option<
    Seq<bool>,
>
    decreases n,
{
    if n == 0 {
        Some(w)
    } else {
        match set_wires(w, outs, vals, (n - 1) as nat) {
            Some(w2) => if outs[n - 1] < w2.len() {
                Some(w2.update(outs[n - 1] as int, vals[n - 1]))
            } else {
                None
            },
            None => None,
        }
    }
}

pub open spec fn min_nat(a: nat, b: nat) -> nat {
    if a <= b {
        a
    } else {
        b
    }
}

/// The first `n` input pairs of a MAND gate name wires below `len`.
pub open spec fn mand_in_range(lhs: Seq<usize>, rhs: Seq<usize>, n: nat, len: nat) -> bool {
    forall|k: int| #![trigger lhs[k]] 0 <= k < n ==> lhs[k] < len && rhs[k] < len
}

/// The ANDs of the first `n` input pairs of a MAND gate.
pub open spec fn mand_values(lhs: Seq<usize>, rhs: Seq<usize>, w: Seq<bool>, n: nat) -> Seq<bool> {
    Seq::new(n, |k: int| w[lhs[k] as int] && w[rhs[k] as int])
}

/// One gate applied to the wires; `None` if it names a wire out of range.
pub open spec fn eval_gate(g: GateModel, w: Seq<bool>) -> Option<Seq<bool>> {
    match g {
        GateModel::Xor { lhs, rhs, output } => if lhs < w.len() && rhs < w.len() && output
            < w.len() {
            Some(w.update(output as int, w[lhs as int] != w[rhs as int]))
        } else {
            None
        },
        GateModel::And { lhs, rhs, output } => if lhs < w.len() && rhs < w.len() && output
            < w.len() {
            Some(w.update(output as int, w[lhs as int] && w[rhs as int]))
        } else {
            None
        },
        GateModel::Inv { input, output } => if input < w.len() && output < w.len() {
            Some(w.update(output as int, !w[input as int]))
        } else {
            None
        },
        GateModel::Mand { lhs, rhs, outputs } => {
            let n = min_nat(lhs.len(), rhs.len());
            if mand_in_range(lhs, rhs, n, w.len()) {
                set_wires(w, outputs, mand_values(lhs, rhs, w, n), min_nat(outputs.len(), n))
            } else {
                None
            }
        },
    }
}

/// The first `n` gates applied in order.
pub open spec fn eval_gates(gates: Seq<GateModel>, w: Seq<bool>, n: nat) -> Option<Seq<bool>>
    decreases n,
{
    if n == 0 {
        Some(w)
    } else {
        match eval_gates(gates, w, (n - 1) as nat) {
            Some(w2) => eval_gate(gates[n - 1], w2),
            None => None,
        }
    }
}

/// The sum of a list of sizes.
pub open spec fn seq_sum(s: Seq<usize>) -> nat
    decreases s.len(),
{
    if s.len() == 0 {
        0
    } else {
        seq_sum(s.drop_last()) + s.last() as nat
    }
}

/// Blocks of bits one after the other.
pub open spec fn concat(blocks: Seq<Seq<bool>>) -> Seq<bool>
    decreases blocks.len(),
{
    if blocks.len() == 0 {
        Seq::empty()
    } else {
        concat(blocks.drop_last()) + blocks.last()
    }
}

/// The wires before the first gate: the input blocks one after the other,
/// then `false`.
pub open spec fn initial_wires(num_wires: nat, inputs: Seq<Seq<bool>>) -> Seq<bool> {
    Seq::new(
        num_wires,
        |i: int|
            if i < concat(inputs).len() {
                concat(inputs)[i]
            } else {
                false
            },
    )
}

/// The circuit evaluated on input blocks: the last wires after all gates,
/// as many as the output sizes add up to.
pub open spec fn evaluate_circuit(c: CircuitModel, inputs: Seq<Seq<bool>>) -> Result<
    Seq<bool>,
    CircuitError,
> {
    if inputs.len() != c.input_sizes.len() {
        Err(CircuitError::WrongInputCount)
    } else if exists|k: int| 0 <= k < inputs.len() && #[trigger] inputs[k].len() != c.input_sizes[k] {
        Err(CircuitError::WrongInputSize)
    } else {
        match eval_gates(c.gates, initial_wires(c.num_wires as nat, inputs), c.gates.len()) {
            None => Err(CircuitError::WireOutOfBounds),
            Some(w) => {
                let out = seq_sum(c.output_sizes);
                if out > c.num_wires {
                    Err(CircuitError::OutputTooLarge)
                } else {
                    Ok(w.skip(c.num_wires - out))
                }
            },
        }
    }
}


/// The bits of each input block.
pub open spec fn block_views(inputs: Seq<&[bool]>) -> Seq<Seq<bool>> {
    Seq::new(inputs.len(), |k: int| inputs[k]@)
}

proof fn lemma_set_wires_none(w: Seq<bool>, outs: Seq<usize>, vals: Seq<bool>, n: nat, m: nat)
    requires
        n <= m,
        set_wires(w, outs, vals, n) is None,
    ensures
        set_wires(w, outs, vals, m) is None,
    decreases m,
{
    if n < m {
        lemma_set_wires_none(w, outs, vals, n, (m - 1) as nat);
    }
}

proof fn lemma_eval_gates_none(gates: Seq<GateModel>, w: Seq<bool>, n: nat, m: nat)
    requires
        n <= m,
        eval_gates(gates, w, n) is None,
    ensures
        eval_gates(gates, w, m) is None,
    decreases m,
{
    if n < m {
        lemma_eval_gates_none(gates, w, n, (m - 1) as nat);
    }
}

proof fn lemma_set_wires_len(w: Seq<bool>, outs: Seq<usize>, vals: Seq<bool>, n: nat)
    requires
        set_wires(w, outs, vals, n) is Some,
    ensures
        set_wires(w, outs, vals, n)->0.len() == w.len(),
    decreases n,
{
    if n > 0 {
        lemma_set_wires_len(w, outs, vals, (n - 1) as nat);
    }
}

proof fn lemma_eval_gates_len(gates: Seq<GateModel>, w: Seq<bool>, n: nat)
    requires
        eval_gates(gates, w, n) is Some,
    ensures
        eval_gates(gates, w, n)->0.len() == w.len(),
    decreases n,
{
    if n > 0 {
        lemma_eval_gates_len(gates, w, (n - 1) as nat);
        let w2 = eval_gates(gates, w, (n - 1) as nat)->0;
        match gates[n - 1] {
            GateModel::Mand { lhs, rhs, outputs } => {
                let k = min_nat(lhs.len(), rhs.len());
                lemma_set_wires_len(w2, outputs, mand_values(lhs, rhs, w2, k), min_nat(outputs.len(), k));
            },
            _ => {},
        }
    }
}

proof fn lemma_seq_sum_prefix(s: Seq<usize>, i: int)
    requires
        0 <= i <= s.len(),
    ensures
        seq_sum(s.take(i)) <= seq_sum(s),
    decreases s.len(),
{
    if i < s.len() {
        lemma_seq_sum_prefix(s.drop_last(), i);
        assert(s.drop_last().take(i) =~= s.take(i));
    } else {
        assert(s.take(i) =~= s);
    }
}

/// Read an input or output line.
fn parse_io_sizes_line(ws: &Vec<Vec<u8>>) -> (r: Option<Vec<usize>>)
    ensures
        r is None <==> parse_io_sizes(word_views(ws@)) is None,
        r is Some ==> parse_io_sizes(word_views(ws@)) == Some(r->0@),
{
    let nums = match parse_usizes(ws.as_slice()) {
        Some(nums) => nums,
        None => {
            return None;
        },
    };
    if nums.len() == 0 || nums.len() - 1 != nums[0] {
        return None;
    }
    let sizes = slice_to_vec(slice_subrange(nums.as_slice(), 1, nums.len()));
    assert(sizes@ =~= nums@.skip(1));
    Some(sizes)
}

/// Read a gate line.
fn parse_gate_line(ws: &Vec<Vec<u8>>) -> (r: Option<Gate>)
    ensures
        r is None <==> parse_gate(word_views(ws@)) is None,
        r is Some ==> parse_gate(word_views(ws@)) == Some(r->0@),
{
    if ws.len() == 0 {
        return None;
    }
    let last = ws.len() - 1;
    let prefix = slice_subrange(ws.as_slice(), 0, last);
    assert(word_views(prefix@) =~= word_views(ws@).drop_last());
    let nums = match parse_usizes(prefix) {
        Some(nums) => nums,
        None => {
            return None;
        },
    };
    let kind = &ws[last];
    assert(kind@ == word_views(ws@).last());
    let xor: [u8; 3] = [88, 79, 82];
    let and: [u8; 3] = [65, 78, 68];
    let inv: [u8; 3] = [73, 78, 86];
    let mand: [u8; 4] = [77, 65, 78, 68];
    assert(xor@ =~= name_xor());
    assert(and@ =~= name_and());
    assert(inv@ =~= name_inv());
    assert(mand@ =~= name_mand());
    if bytes_eq(kind, &xor) {
        if nums.len() == 5 && nums[0] == 2 && nums[1] == 1 {
            Some(Gate::Xor { lhs: nums[2], rhs: nums[3], output: nums[4] })
        } else {
            None
        }
    } else if bytes_eq(kind, &and) {
        if nums.len() == 5 && nums[0] == 2 && nums[1] == 1 {
            Some(Gate::And { lhs: nums[2], rhs: nums[3], output: nums[4] })
        } else {
            None
        }
    } else if bytes_eq(kind, &inv) {
        if nums.len() == 4 && nums[0] == 1 && nums[1] == 1 {
            Some(Gate::Inv { input: nums[2], output: nums[3] })
        } else {
            None
        }
    } else if bytes_eq(kind, &mand) {
        if nums.len() < 2 {
            return None;
        }
        let count = nums[1];
        if count > (usize::MAX - 2) / 3 || nums[0] % 2 != 0 || nums[0] / 2 != count || nums.len()
            != 2 + 3 * count {
            return None;
        }
        let lhs = slice_to_vec(slice_subrange(nums.as_slice(), 2, 2 + count));
        let rhs = slice_to_vec(slice_subrange(nums.as_slice(), 2 + count, 2 + 2 * count));
        let outputs = slice_to_vec(slice_subrange(nums.as_slice(), 2 + 2 * count, nums.len()));
        let g = Gate::Mand { lhs, rhs, outputs };
        assert(g@ =~= parse_gate(word_views(ws@))->0);
        Some(g)
    } else {
        None
    }
}

impl Gate {
    /// Apply this gate to a wire vector.
    fn evaluate(&self, wires: &mut Vec<bool>) -> (r: Result<(), CircuitError>)
        ensures
            eval_gate(self@, old(wires)@) is None ==> r == Err::<(), CircuitError>(
                CircuitError::WireOutOfBounds,
            ),
            eval_gate(self@, old(wires)@) is Some ==> r is Ok && final(wires)@ == eval_gate(
                self@,
                old(wires)@,
            )->0,
            final(wires)@.len() == old(wires)@.len(),
    {
        match self {
            Gate::Xor { lhs, rhs, output } => {
                if *lhs >= wires.len() || *rhs >= wires.len() || *output >= wires.len() {
                    return Err(CircuitError::WireOutOfBounds);
                }
                let v = wires[*lhs] ^ wires[*rhs];
                wires.set(*output, v);
                Ok(())
            },
            Gate::And { lhs, rhs, output } => {
                if *lhs >= wires.len() || *rhs >= wires.len() || *output >= wires.len() {
                    return Err(CircuitError::WireOutOfBounds);
                }
                let v = wires[*lhs] && wires[*rhs];
                wires.set(*output, v);
                Ok(())
            },
            Gate::Inv { input, output } => {
                if *input >= wires.len() || *output >= wires.len() {
                    return Err(CircuitError::WireOutOfBounds);
                }
                let v = !wires[*input];
                wires.set(*output, v);
                Ok(())
            },
            Gate::Mand { lhs, rhs, outputs } => {
                let ghost w0 = wires@;
                let n = if lhs.len() <= rhs.len() {
                    lhs.len()
                } else {
                    rhs.len()
                };
                let mut values: Vec<bool> = Vec::new();
                let mut k: usize = 0;
                while k < n
                    invariant
                        k <= n,
                        n == min_nat(lhs@.len(), rhs@.len()),
                        wires@ == w0,
                        wires@.len() == old(wires)@.len(),
                        w0 == old(wires)@,
                        self@ == (GateModel::Mand { lhs: lhs@, rhs: rhs@, outputs: outputs@ }),
                        values@.len() == k,
                        forall|j: int| 0 <= j < k ==> #[trigger] lhs@[j] < w0.len() && rhs@[j] < w0.len(),
                        forall|j: int| 0 <= j < k ==> #[trigger] values@[j] == (w0[lhs@[j] as int]
                            && w0[rhs@[j] as int]),
                    decreases n - k,
                {
                    if lhs[k] >= wires.len() || rhs[k] >= wires.len() {
                        assert(!(lhs@[k as int] < w0.len() && rhs@[k as int] < w0.len()));
                        assert(!mand_in_range(lhs@, rhs@, n as nat, w0.len()));
                        return Err(CircuitError::WireOutOfBounds);
                    }
                    values.push(wires[lhs[k]] && wires[rhs[k]]);
                    k = k + 1;
                }
                let ghost vals = mand_values(lhs@, rhs@, w0, n as nat);
                assert(values@ =~= vals);
                assert(mand_in_range(lhs@, rhs@, n as nat, w0.len()));
                let m = if outputs.len() <= n {
                    outputs.len()
                } else {
                    n
                };
                let mut k: usize = 0;
                while k < m
                    invariant
                        k <= m,
                        m == min_nat(outputs@.len(), n as nat),
                        w0 == old(wires)@,
                        wires@.len() == w0.len(),
                        m <= n,
                        values@ == vals,
                        vals.len() == n,
                        eval_gate(self@, w0) == set_wires(w0, outputs@, vals, m as nat),
                        set_wires(w0, outputs@, vals, k as nat) == Some(wires@),
                    decreases m - k,
                {
                    if outputs[k] >= wires.len() {
                        proof {
                            assert(set_wires(w0, outputs@, vals, (k + 1) as nat) is None);
                            lemma_set_wires_none(w0, outputs@, vals, (k + 1) as nat, m as nat);
                            assert(eval_gate(self@, w0) is None);
                        }
                        return Err(CircuitError::WireOutOfBounds);
                    }
                    let v = values[k];
                    wires.set(outputs[k], v);
                    k = k + 1;
                }
                assert(set_wires(w0, outputs@, vals, m as nat) == Some(wires@));
                Ok(())
            },
        }
    }
}

/// A boolean circuit: wire count, input and output block sizes, gates.
#[derive(Clone, Debug)]
pub struct BooleanCircuit {
    num_wires: usize,
    input_sizes: Vec<usize>,
    output_sizes: Vec<usize>,
    gates: Vec<Gate>,
}

impl View for BooleanCircuit {
    type V = CircuitModel;

    closed spec fn view(&self) -> CircuitModel {
        CircuitModel {
            num_wires: self.num_wires,
            input_sizes: self.input_sizes@,
            output_sizes: self.output_sizes@,
            gates: self.gates@.map_values(|g: Gate| g@),
        }
    }
}



impl BooleanCircuit {
    /// Read a circuit in the Bristol format.
    pub fn parse(text: &[u8]) -> (r: Result<BooleanCircuit, CircuitError>)
        ensures
            r is Ok ==> parse_circuit(text@) == Ok::<CircuitModel, CircuitError>(r->Ok_0@),
            r is Err ==> parse_circuit(text@) == Err::<CircuitModel, CircuitError>(r->Err_0),
    {
        let ghost ls = token_lines(text@);
        assert(text@.skip(0) =~= text@);
        let (line, pos) = next_token_line(text, 0);
        let line = match line {
            Some(line) => line,
            None => {
                return Err(CircuitError::MissingSizeHeader);
            },
        };
        assert(ls[0] == word_views(line@));
        assert(ls.skip(1) =~= token_lines(text@.skip(pos as int)));
        let header = match parse_usizes(line.as_slice()) {
            Some(h) => h,
            None => {
                return Err(CircuitError::InvalidSizeHeader);
            },
        };
        if header.len() != 2 {
            return Err(CircuitError::InvalidSizeHeader);
        }
        let num_gates = header[0];
        let num_wires = header[1];
        let (line, pos) = next_token_line(text, pos);
        let line = match line {
            Some(line) => line,
            None => {
                return Err(CircuitError::MissingInputHeader);
            },
        };
        assert(ls[1] == ls.skip(1)[0]);
        assert(ls.skip(2) =~= ls.skip(1).drop_first());
        let input_sizes = match parse_io_sizes_line(&line) {
            Some(sizes) => sizes,
            None => {
                return Err(CircuitError::InvalidInputHeader);
            },
        };
        let (line, pos) = next_token_line(text, pos);
        let line = match line {
            Some(line) => line,
            None => {
                return Err(CircuitError::MissingOutputHeader);
            },
        };
        assert(ls[2] == ls.skip(2)[0]);
        assert(ls.skip(3) =~= ls.skip(2).drop_first());
        let output_sizes = match parse_io_sizes_line(&line) {
            Some(sizes) => sizes,
            None => {
                return Err(CircuitError::InvalidOutputHeader);
            },
        };
        let mut gates: Vec<Gate> = Vec::new();
        let mut pos = pos;
        let mut done = false;
        let ghost mut k: int = 3;
        while !done
            invariant
                pos <= text@.len(),
                ls == token_lines(text@),
                3 <= k <= ls.len(),
                all_parse(ls[0]) && ls[0].len() == 2,
                parsed_values(ls[0]) == header@,
                num_gates == header@[0],
                num_wires == header@[1],
                parse_io_sizes(ls[1]) == Some(input_sizes@),
                parse_io_sizes(ls[2]) == Some(output_sizes@),
                gates@.len() == k - 3,
                !done ==> ls.skip(k) == token_lines(text@.skip(pos as int)),
                done ==> k == ls.len(),
                forall|i: int| 0 <= i < k - 3 ==> parse_gate(ls[i + 3]) == Some(#[trigger] gates@[i]@),
            decreases text@.len() - pos, if done { 0int } else { 1int },
        {
            let (line, next) = next_token_line(text, pos);
            match line {
                None => {
                    assert(ls.skip(k).len() == 0);
                    done = true;
                },
                Some(line) => {
                    assert(ls.skip(k).len() > 0);
                    assert(ls[k] == ls.skip(k)[0]);
                    assert(ls.skip(k + 1) =~= ls.skip(k).drop_first());
                    match parse_gate_line(&line) {
                        Some(g) => {
                            gates.push(g);
                            proof {
                                k = k + 1;
                            }
                            pos = next;
                        },
                        None => {
                            assert(3 <= k < ls.len() && parse_gate(ls[k]) is None);
                            return Err(CircuitError::InvalidGate);
                        },
                    }
                },
            }
        }
        assert(!(exists|i: int| 3 <= i < ls.len() && #[trigger] parse_gate(ls[i]) is None)) by {
            assert forall|i: int| 3 <= i < ls.len() implies !(#[trigger] parse_gate(ls[i]) is None) by {
                assert(parse_gate(ls[(i - 3) + 3]) == Some(gates@[i - 3]@));
            }
        }
        if gates.len() != num_gates {
            return Err(CircuitError::GateCountMismatch);
        }
        let c = BooleanCircuit { num_wires, input_sizes, output_sizes, gates };
        assert(c@.gates =~= Seq::new((ls.len() - 3) as nat, |i: int| parse_gate(ls[i + 3])->0)) by {
            assert forall|i: int| 0 <= i < ls.len() - 3 implies #[trigger] c@.gates[i] == parse_gate(
                ls[i + 3],
            )->0 by {
                assert(parse_gate(ls[i + 3]) == Some(gates@[i]@));
            }
        }
        Ok(c)
    }

    /// Evaluate the circuit in the clear on input blocks.
    pub fn evaluate(&self, inputs: &[&[bool]]) -> (r: Result<Vec<bool>, CircuitError>)
        requires
            seq_sum(self@.input_sizes) <= self@.num_wires,
            seq_sum(self@.output_sizes) <= usize::MAX,
        ensures
            evaluate_circuit(self@, block_views(inputs@)) is Ok ==> r is Ok && r->Ok_0@
                == evaluate_circuit(self@, block_views(inputs@))->Ok_0,
            evaluate_circuit(self@, block_views(inputs@)) is Err ==> r is Err && r->Err_0
                == evaluate_circuit(self@, block_views(inputs@))->Err_0,
    {
        let ghost blocks = block_views(inputs@);
        let ghost model = self@;
        if inputs.len() != self.input_sizes.len() {
            return Err(CircuitError::WrongInputCount);
        }
        let mut wires: Vec<bool> = Vec::new();
        let mut i: usize = 0;
        while i < self.num_wires
            invariant
                i <= self.num_wires,
                wires@.len() == i,
                forall|j: int| 0 <= j < i ==> !#[trigger] wires@[j],
            decreases self.num_wires - i,
        {
            wires.push(false);
            i = i + 1;
        }
        let mut offset: usize = 0;
        let mut k: usize = 0;
        while k < inputs.len()
            invariant
                k <= inputs@.len() == self.input_sizes@.len(),
                model == self@,
                blocks == block_views(inputs@),
                seq_sum(self.input_sizes@) <= self.num_wires,
                offset == seq_sum(self.input_sizes@.take(k as int)),
                offset == concat(blocks.take(k as int)).len(),
                wires@ == initial_wires(self.num_wires as nat, blocks.take(k as int)),
                forall|j: int| 0 <= j < k ==> #[trigger] blocks[j].len() == self.input_sizes@[j],
            decreases inputs@.len() - k,
        {
            let block = inputs[k];
            let size = self.input_sizes[k];
            if block.len() != size {
                assert(blocks[k as int].len() != model.input_sizes[k as int]);
                return Err(CircuitError::WrongInputSize);
            }
            proof {
                lemma_seq_sum_prefix(self.input_sizes@, k + 1);
                assert(self.input_sizes@.take(k + 1).drop_last() =~= self.input_sizes@.take(k as int));
                assert(blocks.take(k + 1).drop_last() =~= blocks.take(k as int));
            }
            let ghost before = wires@;
            let mut j: usize = 0;
            while j < size
                invariant
                    j <= size == block@.len(),
                    offset + size <= self.num_wires,
                    wires@.len() == self.num_wires,
                    forall|t: int| 0 <= t < offset ==> #[trigger] wires@[t] == before[t],
                    forall|t: int| offset + j <= t < self.num_wires ==> #[trigger] wires@[t] == before[t],
                    forall|t: int| 0 <= t < j ==> #[trigger] wires@[offset + t] == block@[t],
                decreases size - j,
            {
                wires.set(offset + j, block[j]);
                j = j + 1;
            }
            proof {
                let c0 = concat(blocks.take(k as int));
                let c1 = concat(blocks.take(k + 1));
                assert(c1 == c0 + blocks[k as int]);
                assert(blocks[k as int] == block@);
                assert(before == initial_wires(self.num_wires as nat, blocks.take(k as int)));
                assert forall|t: int| 0 <= t < self.num_wires implies #[trigger] wires@[t]
                    == initial_wires(self.num_wires as nat, blocks.take(k + 1))[t] by {
                    if t < offset {
                        assert(wires@[t] == before[t]);
                    } else if t < offset + size {
                        assert(wires@[offset + (t - offset)] == block@[t - offset]);
                    } else {
                        assert(wires@[t] == before[t]);
                    }
                }
                assert(wires@ =~= initial_wires(self.num_wires as nat, blocks.take(k + 1)));
            }
            offset = offset + size;
            k = k + 1;
        }
        proof {
            assert(blocks.take(k as int) =~= blocks);
            assert(!(exists|j: int| 0 <= j < blocks.len() && #[trigger] blocks[j].len()
                != model.input_sizes[j]));
        }
        let ghost w0 = wires@;
        let ghost gates = self@.gates;
        assert(w0 == initial_wires(self.num_wires as nat, blocks));
        let mut g: usize = 0;
        while g < self.gates.len()
            invariant
                g <= self.gates@.len(),
                model == self@,
                blocks == block_views(inputs@),
                blocks.len() == model.input_sizes.len(),
                !(exists|j: int| 0 <= j < blocks.len() && #[trigger] blocks[j].len()
                    != model.input_sizes[j]),
                w0 == initial_wires(self.num_wires as nat, blocks),
                wires@.len() == self.num_wires,
                gates == self@.gates,
                gates.len() == self.gates@.len(),
                eval_gates(gates, w0, g as nat) == Some(wires@),
            decreases self.gates@.len() - g,
        {
            assert(gates[g as int] == self.gates@[g as int]@);
            match self.gates[g].evaluate(&mut wires) {
                Ok(()) => {},
                Err(e) => {
                    proof {
                        lemma_eval_gates_none(gates, w0, (g + 1) as nat, gates.len());
                    }
                    return Err(e);
                },
            }
            g = g + 1;
        }
        assert(self.gates@.len() == gates.len());
        let mut output_len: usize = 0;
        let mut t: usize = 0;
        while t < self.output_sizes.len()
            invariant
                t <= self.output_sizes@.len(),
                seq_sum(self.output_sizes@) <= usize::MAX,
                output_len == seq_sum(self.output_sizes@.take(t as int)),
            decreases self.output_sizes@.len() - t,
        {
            proof {
                lemma_seq_sum_prefix(self.output_sizes@, t + 1);
                assert(self.output_sizes@.take(t + 1).drop_last() =~= self.output_sizes@.take(t as int));
            }
            output_len = output_len + self.output_sizes[t];
            t = t + 1;
        }
        assert(self.output_sizes@.take(t as int) =~= self.output_sizes@);
        if output_len > self.num_wires {
            return Err(CircuitError::OutputTooLarge);
        }
        let out = slice_to_vec(slice_subrange(wires.as_slice(), self.num_wires - output_len, self.num_wires));
        assert(out@ =~= wires@.skip(self.num_wires - output_len));
        Ok(out)
    }
}

/// The LowMC instance of the DORAM PRF as a boolean circuit: its inputs are
/// the expanded key (every round key, one after the other) and then the
/// block; its output is the ciphertext block.
#[derive(Debug)]
pub struct GigadoramLowMc {
    circuit: BooleanCircuit,
}

/// The circuit shape of the DORAM PRF: an expanded key and a block in, a
/// block out.
pub open spec fn has_prf_shape(c: CircuitModel) -> bool {
    c.input_sizes == seq![1280usize, 128usize] && c.output_sizes == seq![128usize]
}

/// Reading a circuit of the DORAM PRF shape.
pub open spec fn spec_from_bristol(text: Seq<u8>) -> Result<CircuitModel, CircuitError> {
    match parse_circuit(text) {
        Err(e) => Err(e),
        Ok(c) => if c.input_sizes != seq![1280usize, 128usize] {
            Err(CircuitError::UnexpectedInputs)
        } else if c.output_sizes != seq![128usize] {
            Err(CircuitError::UnexpectedOutputs)
        } else {
            Ok(c)
        },
    }
}

/// The bits of an expanded key given as one word per round key.
pub open spec fn expanded_key_bits(keys: Seq<u128>) -> Seq<bool> {
    Seq::new(1280, |i: int| bit_u128(keys[i / 128], i % 128))
}

impl GigadoramLowMc {
    pub const BLOCK_BITS: usize = 128;

    pub const ROUNDS: usize = 9;

    pub const ROUND_KEYS: usize = 10;

    pub const EXPANDED_KEY_BITS: usize = 1280;

    #[verifier::type_invariant]
    spec fn wf(self) -> bool {
        has_prf_shape(self.circuit@)
    }

    /// The circuit this cipher evaluates.
    pub closed spec fn model(self) -> CircuitModel {
        self.circuit@
    }

    /// Read the circuit from its Bristol text; it must take the expanded key
    /// and then the block, and give one block.
    pub fn from_bristol(circuit: &[u8]) -> (r: Result<GigadoramLowMc, CircuitError>)
        ensures
            r is Ok ==> spec_from_bristol(circuit@) == Ok::<CircuitModel, CircuitError>(
                r->Ok_0.model(),
            ),
            r is Err ==> spec_from_bristol(circuit@) == Err::<CircuitModel, CircuitError>(
                r->Err_0,
            ),
    {
        let c = BooleanCircuit::parse(circuit)?;
        if !(c.input_sizes.len() == 2 && c.input_sizes[0] == 1280 && c.input_sizes[1] == 128) {
            assert(c@.input_sizes != seq![1280usize, 128usize]) by {
                if c@.input_sizes == seq![1280usize, 128usize] {
                    assert(c.input_sizes@.len() == 2);
                }
            }
            return Err(CircuitError::UnexpectedInputs);
        }
        assert(c@.input_sizes =~= seq![1280usize, 128usize]);
        if !(c.output_sizes.len() == 1 && c.output_sizes[0] == 128) {
            assert(c@.output_sizes != seq![128usize]) by {
                if c@.output_sizes == seq![128usize] {
                    assert(c.output_sizes@.len() == 1);
                }
            }
            return Err(CircuitError::UnexpectedOutputs);
        }
        assert(c@.output_sizes =~= seq![128usize]);
        Ok(GigadoramLowMc { circuit: c })
    }

    /// The number of wires of the circuit.
    pub fn num_wires(&self) -> (n: usize)
        ensures
            n == self.model().num_wires,
    {
        self.circuit.num_wires
    }

    /// Encrypt the block `input` (one bit per entry, least significant
    /// first) under the expanded key `expanded_key`.
    pub fn encrypt(&self, expanded_key: &[bool], input: &[bool]) -> (r: Result<[bool; 128], CircuitError>)
        requires
            self.model().num_wires >= 1408,
        ensures
            expanded_key@.len() != 1280 ==> r == Err::<[bool; 128], CircuitError>(
                CircuitError::WrongKeyLength,
            ),
            expanded_key@.len() == 1280 && input@.len() != 128 ==> r == Err::<
                [bool; 128],
                CircuitError,
            >(CircuitError::WrongBlockLength),
            expanded_key@.len() == 1280 && input@.len() == 128 ==> match evaluate_circuit(
                self.model(),
                seq![expanded_key@, input@],
            ) {
                Ok(out) => r is Ok && r->Ok_0@ == out,
                Err(e) => r == Err::<[bool; 128], CircuitError>(e),
            },
    {
        proof {
            use_type_invariant(self);
        }
        if expanded_key.len() != 1280 {
            return Err(CircuitError::WrongKeyLength);
        }
        if input.len() != 128 {
            return Err(CircuitError::WrongBlockLength);
        }
        let inputs: [&[bool]; 2] = [expanded_key, input];
        proof {
            reveal_with_fuel(seq_sum, 3);
            assert(block_views(inputs@) =~= seq![expanded_key@, input@]);
        }
        let output = self.circuit.evaluate(&inputs)?;
        proof {
            reveal_with_fuel(seq_sum, 2);
            let m = self.circuit@;
            let w0 = initial_wires(m.num_wires as nat, block_views(inputs@));
            lemma_eval_gates_len(m.gates, w0, m.gates.len());
        }
        let mut out = [false; 128];
        let mut i: usize = 0;
        while i < 128
            invariant
                i <= 128,
                output@.len() == 128,
                forall|j: int| 0 <= j < i ==> #[trigger] out@[j] == output@[j],
            decreases 128 - i,
        {
            out[i] = output[i];
            i = i + 1;
        }
        assert(out@ =~= output@);
        Ok(out)
    }

    /// Encrypt `input` under the expanded key given as one word per round
    /// key (bit `i` of a word is bit `i` of that round key).
    pub fn encrypt_u128_chunks(&self, expanded_key: &[u128; 10], input: u128) -> (r: Result<u128, CircuitError>)
        requires
            self.model().num_wires >= 1408,
        ensures
            match evaluate_circuit(
                self.model(),
                seq![expanded_key_bits(expanded_key@), u128_to_bit_seq(input)],
            ) {
                Ok(out) => r is Ok && u128_to_bit_seq(r->Ok_0) == out,
                Err(e) => r == Err::<u128, CircuitError>(e),
            },
    {
        let mut key_bits: Vec<bool> = Vec::new();
        let mut c: usize = 0;
        while c < 10
            invariant
                c <= 10,
                key_bits@.len() == 128 * c,
                forall|i: int| 0 <= i < 128 * c ==> #[trigger] key_bits@[i] == bit_u128(
                    expanded_key@[i / 128],
                    i % 128,
                ),
            decreases 10 - c,
        {
            let bits = u128_to_bits(expanded_key[c]);
            let mut b: usize = 0;
            while b < 128
                invariant
                    c < 10,
                    b <= 128,
                    key_bits@.len() == 128 * c + b,
                    bits@ == u128_to_bit_seq(expanded_key@[c as int]),
                    forall|i: int| 0 <= i < 128 * c + b ==> #[trigger] key_bits@[i] == bit_u128(
                        expanded_key@[i / 128],
                        i % 128,
                    ),
                decreases 128 - b,
            {
                key_bits.push(bits[b]);
                proof {
                    let i = 128 * c + b;
                    assert(i / 128 == c as int && i % 128 == b as int);
                }
                b = b + 1;
            }
            c = c + 1;
        }
        assert(key_bits@ =~= expanded_key_bits(expanded_key@));
        let input_bits = u128_to_bits(input);
        let output = self.encrypt(key_bits.as_slice(), &input_bits)?;
        Ok(bits_to_u128(&output))
    }
}

/// The bits of a word, least significant first.
pub fn u128_to_bits(value: u128) -> (bits: [bool; 128])
    ensures
        bits@ == u128_to_bit_seq(value),
{
    let mut bits = [false; 128];
    let mut i: usize = 0;
    while i < 128
        invariant
            i <= 128,
            forall|j: int| 0 <= j < i ==> #[trigger] bits@[j] == bit_u128(value, j),
        decreases 128 - i,
    {
        bits[i] = (value >> (i as u128)) & 1 == 1;
        i = i + 1;
    }
    assert(bits@ =~= u128_to_bit_seq(value));
    bits
}

/// The word whose bits, least significant first, are `bits`.
pub fn bits_to_u128(bits: &[bool; 128]) -> (value: u128)
    ensures
        u128_to_bit_seq(value) == bits@,
        forall|v: u128| #[trigger] u128_to_bit_seq(v) == bits@ ==> v == value,
{
    let mut value: u128 = 0;
    proof {
        lemma_zero_u128();
    }
    let mut i: usize = 0;
    while i < 128
        invariant
            i <= 128,
            forall|j: int| 0 <= j < 128 ==> #[trigger] bit_u128(value, j) == (j < i && bits@[j]),
        decreases 128 - i,
    {
        if bits[i] {
            proof {
                lemma_set_bit_u128(value, i as u128);
            }
            value = value | (1u128 << (i as u128));
        }
        i = i + 1;
    }
    assert(u128_to_bit_seq(value) =~= bits@);
    assert forall|v: u128| #[trigger] u128_to_bit_seq(v) == bits@ implies v == value by {
        lemma_u128_bits_injective(v, value);
    }
    value
}


/// The key bits fed to the circuit are the round keys in order: bits
/// `128 * r .. 128 * r + 128` of the expanded key are the 128 bits of round
/// key `r`, so key bit `128 * r + j` is bit `j` of `keys[r]`.
pub proof fn lemma_expanded_key_bits_in_order(keys: Seq<u128>, r: int)
    requires
        keys.len() == 10,
        0 <= r < 10,
    ensures
        expanded_key_bits(keys).len() == 1280,
        expanded_key_bits(keys).subrange(128 * r, 128 * r + 128) == u128_to_bit_seq(keys[r]),
        forall|j: int| 0 <= j < 128 ==> #[trigger] expanded_key_bits(keys)[128 * r + j] == bit_u128(keys[r], j),
{
    assert forall|j: int| 0 <= j < 128 implies #[trigger] expanded_key_bits(keys)[128 * r + j] == bit_u128(
        keys[r],
        j,
    ) by {
        assert((128 * r + j) / 128 == r) by (nonlinear_arith)
            requires
                0 <= j < 128,
        ;
        assert((128 * r + j) % 128 == j) by (nonlinear_arith)
            requires
                0 <= j < 128,
        ;
    }
    assert(expanded_key_bits(keys).subrange(128 * r, 128 * r + 128) =~= u128_to_bit_seq(keys[r])) by {
        assert forall|j: int| 0 <= j < 128 implies expanded_key_bits(keys).subrange(128 * r, 128 * r + 128)[j]
            == u128_to_bit_seq(keys[r])[j] by {
            assert(expanded_key_bits(keys)[128 * r + j] == bit_u128(keys[r], j));
        }
    }
}

/// A MAND line `2k k l_0 .. l_{k-1} r_0 .. r_{k-1} o_0 .. o_{k-1}` parses
/// to `k` pairs: the fields after the two counts are the left inputs, then
/// the right inputs, then the outputs, so pair `j` multiplies fields `2 + j`
/// and `2 + k + j` into field `2 + 2k + j`.
pub proof fn lemma_mand_line_fields(ws: Seq<Seq<u8>>, lhs: Seq<usize>, rhs: Seq<usize>, outputs: Seq<usize>)
    requires
        parse_gate(ws) == Some(GateModel::Mand { lhs, rhs, outputs }),
    ensures
        ({
            let nums = parsed_values(ws.drop_last());
            let k = nums[1] as int;
            &&& lhs.len() == k
            &&& rhs.len() == k
            &&& outputs.len() == k
            &&& lhs + rhs + outputs == nums.skip(2)
            &&& forall|j: int|
                0 <= j < k ==> {
                    &&& #[trigger] lhs[j] == nums[2 + j]
                    &&& rhs[j] == nums[2 + k + j]
                    &&& outputs[j] == nums[2 + 2 * k + j]
                }
        }),
{
    let nums = parsed_values(ws.drop_last());
    let k = nums[1] as int;
    assert(ws.last() == name_mand());
    assert(lhs + rhs + outputs =~= nums.skip(2));
}

/// The fields of an XOR, AND or INV line are the two counts, the inputs in
/// order, then the output: the parsed gate gives the line back.
pub proof fn lemma_two_input_gate_fields(ws: Seq<Seq<u8>>)
    requires
        parse_gate(ws) is Some,
        !(parse_gate(ws)->0 is Mand),
    ensures
        ({
            let nums = parsed_values(ws.drop_last());
            match parse_gate(ws)->0 {
                GateModel::Xor { lhs, rhs, output } => nums == seq![2usize, 1usize, lhs, rhs, output],
                GateModel::And { lhs, rhs, output } => nums == seq![2usize, 1usize, lhs, rhs, output],
                GateModel::Inv { input, output } => nums == seq![1usize, 1usize, input, output],
                GateModel::Mand { .. } => true,
            }
        }),
{
    let nums = parsed_values(ws.drop_last());
    match parse_gate(ws)->0 {
        GateModel::Xor { lhs, rhs, output } => {
            assert(nums =~= seq![2usize, 1usize, lhs, rhs, output]);
        },
        GateModel::And { lhs, rhs, output } => {
            assert(nums =~= seq![2usize, 1usize, lhs, rhs, output]);
        },
        GateModel::Inv { input, output } => {
            assert(nums =~= seq![1usize, 1usize, input, output]);
        },
        GateModel::Mand { .. } => {},
    }
}

} // verus!
