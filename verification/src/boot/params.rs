//! Kernel parameters given on the boot command line.
use vstd::prelude::*;

verus! {

/// The kernel parameters: whether the other hardware threads are started,
/// whether symbol information is loaded, and whether memory is kept low.
#[derive(Debug, Clone, Copy, PartialEq, Eq, Structural)]
pub struct Parameters {
    pub smp: bool,
    pub symbolinfo: bool,
    pub low_memory: bool,
}

/// The bytes of `smp:on`.
pub open spec fn smp_on() -> Seq<u8> {
    seq![115u8, 109u8, 112u8, 58u8, 111u8, 110u8]
}

/// The bytes of `smp:off`.
pub open spec fn smp_off() -> Seq<u8> {
    seq![115u8, 109u8, 112u8, 58u8, 111u8, 102u8, 102u8]
}

/// The bytes of `symbolinfo`.
pub open spec fn symbolinfo() -> Seq<u8> {
    seq![115u8, 121u8, 109u8, 98u8, 111u8, 108u8, 105u8, 110u8, 102u8, 111u8]
}

/// The bytes of `lomem`.
pub open spec fn lomem() -> Seq<u8> {
    seq![108u8, 111u8, 109u8, 101u8, 109u8]
}

/// The space that separates parameters.
pub const SEPARATOR: u8 = 32;

/// The pieces of `s` between spaces, in order, as `str::split(' ')` yields
/// them: an empty piece between two adjacent spaces, and one piece for a
/// line without spaces.
pub open spec fn split_spaces(s: Seq<u8>) -> Seq<Seq<u8>>
    decreases s.len(),
{
    if s.len() == 0 {
        seq![Seq::empty()]
    } else {
        let earlier = split_spaces(s.drop_last());
        if s.last() == SEPARATOR {
            earlier.push(Seq::empty())
        } else {
            earlier.update(earlier.len() - 1, earlier.last().push(s.last()))
        }
    }
}

/// The parameters after one more piece: `smp:on` and `smp:off` switch the
/// other hardware threads on and off, `symbolinfo` and `lomem` set their
/// flags, and any other piece changes nothing.
pub open spec fn apply_parameter(parameters: Parameters, piece: Seq<u8>) -> Parameters {
    if piece == smp_on() {
        Parameters { smp: true, ..parameters }
    } else if piece == smp_off() {
        Parameters { smp: false, ..parameters }
    } else if piece == symbolinfo() {
        Parameters { symbolinfo: true, ..parameters }
    } else if piece == lomem() {
        Parameters { low_memory: true, ..parameters }
    } else {
        parameters
    }
}

/// The parameters after the pieces, in order.
pub open spec fn apply_parameters(parameters: Parameters, pieces: Seq<Seq<u8>>) -> Parameters
    decreases pieces.len(),
{
    if pieces.len() == 0 {
        parameters
    } else {
        apply_parameter(apply_parameters(parameters, pieces.drop_last()), pieces.last())
    }
}

/// The defaults: the other hardware threads started, no symbol
/// information, memory not kept low.
pub open spec fn default_parameters() -> Parameters {
    Parameters { smp: true, symbolinfo: false, low_memory: false }
}

/// The parameters a command line gives: the defaults, changed by each
/// piece between spaces in turn.
pub open spec fn spec_parse_cmdline(cmdline: Seq<u8>) -> Parameters {
    apply_parameters(default_parameters(), split_spaces(cmdline))
}

impl Parameters {
    /// The defaults: the other hardware threads started, no symbol
    /// information, memory not kept low.
    pub fn default() -> (r: Self)
        ensures
            r == default_parameters(),
    {
        Self { smp: true, symbolinfo: false, low_memory: false }
    }
}

/// Whether `piece` holds exactly the bytes of `word`.
fn piece_is(piece: &Vec<u8>, word: &[u8]) -> (r: bool)
    ensures
        r == (piece@ == word@),
{
    if piece.len() != word.len() {
        return false;
    }
    let mut i: usize = 0;
    while i < piece.len()
        invariant
            piece.len() == word.len(),
            i <= piece.len(),
            forall|j: int| 0 <= j < i ==> piece@[j] == word@[j],
        decreases piece.len() - i,
    {
        if piece[i] != word[i] {
            return false;
        }
        i = i + 1;
    }
    assert(piece@ =~= word@);
    true
}

/// The parameters after one more piece.
fn apply_piece(parameters: Parameters, piece: &Vec<u8>) -> (r: Parameters)
    ensures
        r == apply_parameter(parameters, piece@),
{
    let smp_on_bytes: [u8; 6] = [115, 109, 112, 58, 111, 110];
    let smp_off_bytes: [u8; 7] = [115, 109, 112, 58, 111, 102, 102];
    let symbolinfo_bytes: [u8; 10] = [115, 121, 109, 98, 111, 108, 105, 110, 102, 111];
    let lomem_bytes: [u8; 5] = [108, 111, 109, 101, 109];
    assert(smp_on_bytes@ =~= smp_on());
    assert(smp_off_bytes@ =~= smp_off());
    assert(symbolinfo_bytes@ =~= symbolinfo());
    assert(lomem_bytes@ =~= lomem());
    if piece_is(piece, &smp_on_bytes) {
        Parameters { smp: true, ..parameters }
    } else if piece_is(piece, &smp_off_bytes) {
        Parameters { smp: false, ..parameters }
    } else if piece_is(piece, &symbolinfo_bytes) {
        Parameters { symbolinfo: true, ..parameters }
    } else if piece_is(piece, &lomem_bytes) {
        Parameters { low_memory: true, ..parameters }
    } else {
        parameters
    }
}

/// Whether `bytes` are valid UTF-8, as `core::str::from_utf8` decides.
pub uninterp spec fn is_utf8(bytes: Seq<u8>) -> bool;

/// Whether `bytes` are valid UTF-8: `core::str::from_utf8` succeeds on them.
/// The result is named by [`is_utf8`]; what UTF-8 validity is is left to
/// the standard library.
#[verifier::external_body]
fn utf8_valid(bytes: &[u8]) -> (r: bool)
    ensures
        r == is_utf8(bytes@),
{
    core::str::from_utf8(bytes).is_ok()
}

/// The parameters of the command line `cmdline`, given whether it is valid
/// UTF-8: the defaults where it is not, else what it sets.
pub fn parameters_from(cmdline: &[u8], valid_utf8: bool) -> (r: Parameters)
    ensures
        r == if valid_utf8 {
            spec_parse_cmdline(cmdline@)
        } else {
            default_parameters()
        },
{
    if valid_utf8 {
        parse_parameters(cmdline)
    } else {
        Parameters::default()
    }
}

/// The parameters of the boot command line `cmdline`: the defaults where it
/// is not valid UTF-8, else the defaults changed by each space-separated
/// piece in turn (`smp:on`, `smp:off`, `symbolinfo`, `lomem`).
pub fn parse_cmdline(cmdline: &[u8]) -> (r: Parameters)
    ensures
        r == if is_utf8(cmdline@) {
            spec_parse_cmdline(cmdline@)
        } else {
            default_parameters()
        },
{
    let valid = utf8_valid(cmdline);
    parameters_from(cmdline, valid)
}

/// The parameters a command line gives: the defaults, changed by each
/// space-separated piece in turn (`smp:on`, `smp:off`, `symbolinfo`,
/// `lomem`); other pieces are ignored.
pub fn parse_parameters(cmdline: &[u8]) -> (r: Parameters)
    ensures
        r == spec_parse_cmdline(cmdline@),
{
    let mut parameters = Parameters::default();
    let mut piece: Vec<u8> = Vec::new();
    let mut i: usize = 0;
    assert(split_spaces(cmdline@.take(0)) =~= seq![Seq::<u8>::empty()]);
    while i < cmdline.len()
        invariant
            i <= cmdline.len(),
            split_spaces(cmdline@.take(i as int)).len() >= 1,
            piece@ == split_spaces(cmdline@.take(i as int)).last(),
            parameters == apply_parameters(
                default_parameters(),
                split_spaces(cmdline@.take(i as int)).drop_last(),
            ),
        decreases cmdline.len() - i,
    {
        let ghost pieces = split_spaces(cmdline@.take(i as int));
        assert(cmdline@.take(i + 1).drop_last() =~= cmdline@.take(i as int));
        assert(cmdline@.take(i + 1).last() == cmdline@[i as int]);
        let byte = cmdline[i];
        if byte == SEPARATOR {
            parameters = apply_piece(parameters, &piece);
            piece = Vec::new();
            let ghost next = pieces.push(Seq::empty());
            assert(next.drop_last() =~= pieces);
            assert(pieces =~= pieces.drop_last().push(pieces.last()));
        } else {
            piece.push(byte);
            let ghost next = pieces.update(pieces.len() - 1, pieces.last().push(byte));
            assert(next.drop_last() =~= pieces.drop_last());
        }
        i = i + 1;
    }
    assert(cmdline@.take(i as int) =~= cmdline@);
    let ghost pieces = split_spaces(cmdline@);
    assert(pieces =~= pieces.drop_last().push(pieces.last()));
    apply_piece(parameters, &piece)
}


/// Splitting always yields at least one piece.
proof fn lemma_split_nonempty(s: Seq<u8>)
    ensures
        split_spaces(s).len() >= 1,
    decreases s.len(),
{
    if s.len() > 0 {
        lemma_split_nonempty(s.drop_last());
    }
}

/// Splitting two lines joined by a space gives the pieces of the first,
/// then those of the second.
proof fn lemma_split_concat(first: Seq<u8>, rest: Seq<u8>)
    ensures
        split_spaces(first + seq![SEPARATOR] + rest) == split_spaces(first) + split_spaces(rest),
    decreases rest.len(),
{
    let whole = first + seq![SEPARATOR] + rest;
    lemma_split_nonempty(first);
    if rest.len() == 0 {
        assert(whole.drop_last() =~= first);
        assert(split_spaces(whole) =~= split_spaces(first) + split_spaces(rest));
    } else {
        let shorter = rest.drop_last();
        lemma_split_concat(first, shorter);
        lemma_split_nonempty(shorter);
        assert(whole.drop_last() =~= first + seq![SEPARATOR] + shorter);
        assert(whole.last() == rest.last());
        let a = split_spaces(first);
        let b = split_spaces(shorter);
        if rest.last() == SEPARATOR {
            assert(split_spaces(whole) =~= a + b.push(Seq::empty()));
        } else {
            assert(split_spaces(whole) =~= a + b.update(b.len() - 1, b.last().push(rest.last())));
        }
    }
}

/// Applying two runs of pieces is applying the first run, then the second.
proof fn lemma_apply_concat(parameters: Parameters, a: Seq<Seq<u8>>, b: Seq<Seq<u8>>)
    ensures
        apply_parameters(parameters, a + b) == apply_parameters(apply_parameters(parameters, a), b),
    decreases b.len(),
{
    if b.len() == 0 {
        assert(a + b =~= a);
    } else {
        lemma_apply_concat(parameters, a, b.drop_last());
        assert((a + b).drop_last() =~= a + b.drop_last());
        assert((a + b).last() == b.last());
    }
}

/// A command line is read piece by piece from the left: the parameters of
/// two lines joined by a space are those of the first line, changed by the
/// pieces of the second, so a later piece overrides an earlier one.
pub proof fn lemma_parse_cmdline_concat(first: Seq<u8>, rest: Seq<u8>)
    ensures
        spec_parse_cmdline(first + seq![SEPARATOR] + rest) == apply_parameters(
            spec_parse_cmdline(first),
            split_spaces(rest),
        ),
{
    lemma_split_concat(first, rest);
    lemma_apply_concat(default_parameters(), split_spaces(first), split_spaces(rest));
}

} // verus!
