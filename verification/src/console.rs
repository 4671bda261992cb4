//! The console output encoder.
//!
//! Diagnostic text is converted to the firmware console's fixed-width
//! character encoding one code unit at a time: each character narrows to
//! one code unit, every line feed gains a carriage return before it, and
//! the units accumulate in a small bounded buffer that is null-terminated
//! and flushed through the firmware's output-string call whenever it fills
//! to within two slots of capacity, and once more at the end for any
//! remainder.  Characters beyond the encoding's range pass through the
//! native narrowing conversion; this loss is a known gap, not a policy.

use vstd::prelude::*;

use crate::table::SystemTableRegistry;

verus! {

/// The capacity in code units of the bounded output buffer, terminator
/// included.  A tuning parameter, not a behavioral contract: it merely
/// leaves headroom for one line-ending expansion and the terminator.
pub const OUTPUT_BUFFER_UNITS: usize = 32;

/// One character narrowed to one code unit of the firmware encoding.
pub open spec fn spec_widen(c: char) -> u16 {
    ((c as u32) % 0x10000) as u16
}

/// A text's characters, each narrowed to one code unit.
pub open spec fn spec_text_units(s: Seq<char>) -> Seq<u16> {
    s.map_values(|c: char| spec_widen(c))
}

/// What one code unit contributes to console output: a line feed is
/// preceded by an inserted carriage return; everything else passes as is.
pub open spec fn spec_unit_expansion(u: u16) -> Seq<u16> {
    if u == 10 {
        seq![13u16, u]
    } else {
        seq![u]
    }
}

/// A code-unit sequence with every line feed preceded by an inserted
/// carriage return.
pub open spec fn spec_crlf_expand(s: Seq<u16>) -> Seq<u16>
    decreases s.len(),
{
    if s.len() == 0 {
        Seq::empty()
    } else {
        spec_unit_expansion(s[0]) + spec_crlf_expand(s.drop_first())
    }
}

/// Line-ending expansion distributes over appending one unit.
pub proof fn lemma_crlf_expand_push(s: Seq<u16>, u: u16)
    ensures
        spec_crlf_expand(s.push(u)) == spec_crlf_expand(s) + spec_unit_expansion(u),
    decreases s.len(),
{
    if s.len() == 0 {
        assert(s.push(u)[0] == u);
        assert(s.push(u).drop_first() =~= Seq::<u16>::empty());
        assert(spec_crlf_expand(Seq::<u16>::empty()) =~= Seq::<u16>::empty());
        assert(spec_crlf_expand(s.push(u)) =~= spec_unit_expansion(u) + Seq::<u16>::empty());
        assert(spec_unit_expansion(u) + Seq::<u16>::empty() =~= spec_unit_expansion(u));
        assert(spec_crlf_expand(s) + spec_unit_expansion(u) =~= spec_unit_expansion(u));
    } else {
        assert(s.push(u).drop_first() =~= s.drop_first().push(u));
        assert(s.push(u)[0] == s[0]);
        lemma_crlf_expand_push(s.drop_first(), u);
        assert(spec_unit_expansion(s[0]) + (spec_crlf_expand(s.drop_first())
            + spec_unit_expansion(u)) =~= (spec_unit_expansion(s[0]) + spec_crlf_expand(
            s.drop_first(),
        )) + spec_unit_expansion(u));
    }
}

/// A buffer flush as handed to the firmware: at least one code unit of
/// payload, a terminating zero, and no more than one buffer's capacity in
/// all.
pub open spec fn spec_chunk_wf(c: Seq<u16>) -> bool {
    &&& c.len() >= 2
    &&& c.len() <= OUTPUT_BUFFER_UNITS
    &&& c.last() == 0
}

/// A flushed chunk minus its terminating zero.
pub open spec fn spec_payload(c: Seq<u16>) -> Seq<u16> {
    c.take(c.len() - 1)
}

/// All flushed payloads, concatenated in flush order.
pub open spec fn spec_payload_concat(cs: Seq<Seq<u16>>) -> Seq<u16>
    decreases cs.len(),
{
    if cs.len() == 0 {
        Seq::empty()
    } else {
        spec_payload_concat(cs.drop_last()) + spec_payload(cs.last())
    }
}

/// Expands a code-unit sequence for the console: every line feed gains a
/// preceding carriage return.
pub fn crlf_encode(units: &[u16]) -> (r: Vec<u16>)
    ensures
        r@ == spec_crlf_expand(units@),
{
    let mut out: Vec<u16> = Vec::new();
    let mut i: usize = 0;
    while i < units.len()
        invariant
            i <= units@.len(),
            out@ == spec_crlf_expand(units@.take(i as int)),
        decreases units@.len() - i,
    {
        let u: u16 = *vstd::slice::slice_index_get(units, i);
        proof {
            lemma_crlf_expand_push(units@.take(i as int), u);
            assert(units@.take(i + 1 as int) =~= units@.take(i as int).push(u));
        }
        if u == 10 {
            out.push(13u16);
        }
        out.push(u);
        i += 1;
    }
    proof {
        assert(units@.take(units@.len() as int) =~= units@);
    }
    out
}

/// Narrows a text to firmware code units, one unit per character.
pub fn text_units(string: &str) -> (units: Vec<u16>)
    ensures
        units@ == spec_text_units(string@),
{
    let n: usize = string.unicode_len();
    let mut units: Vec<u16> = Vec::new();
    let mut i: usize = 0;
    while i < n
        invariant
            n == string@.len(),
            i <= n,
            units@ == spec_text_units(string@.take(i as int)),
        decreases n - i,
    {
        let c: char = string.get_char(i);
        let wide: u32 = c as u32;
        let unit: u16 = (wide % 0x10000) as u16;
        units.push(unit);
        proof {
            assert(spec_text_units(string@.take(i + 1 as int)) =~= spec_text_units(
                string@.take(i as int),
            ).push(spec_widen(c)));
        }
        i += 1;
    }
    proof {
        assert(string@.take(n as int) =~= string@);
    }
    units
}

/// Expands and chunks code units for the firmware console.
///
/// Units accumulate in a bounded buffer; every line feed gains a preceding
/// carriage return; whenever the buffer fills to within two slots of
/// capacity it is null-terminated and flushed, and any remainder is
/// null-terminated and flushed at the end.  Concatenating the chunks minus
/// their terminators reproduces the expanded input exactly; every chunk
/// fits one buffer; every chunk but the last was flushed nearly full.
pub fn chunk_for_output(units: &[u16]) -> (chunks: Vec<Vec<u16>>)
    ensures
        spec_payload_concat(chunks.deep_view()) == spec_crlf_expand(units@),
        forall|j: int| 0 <= j < chunks.deep_view().len() ==> spec_chunk_wf(
            #[trigger] chunks.deep_view()[j],
        ),
        forall|j: int| 0 <= j < chunks.deep_view().len() - 1 ==> #[trigger] chunks.deep_view()[j].len()
            >= OUTPUT_BUFFER_UNITS - 1,
{
    let mut chunks: Vec<Vec<u16>> = Vec::new();
    let mut buf: Vec<u16> = Vec::new();
    let mut i: usize = 0;
    while i < units.len()
        invariant
            i <= units@.len(),
            buf@.len() < OUTPUT_BUFFER_UNITS - 2,
            spec_payload_concat(chunks.deep_view()) + buf@ == spec_crlf_expand(
                units@.take(i as int),
            ),
            forall|j: int| 0 <= j < chunks.deep_view().len() ==> spec_chunk_wf(
                #[trigger] chunks.deep_view()[j],
            ),
            forall|j: int| 0 <= j < chunks.deep_view().len() ==> #[trigger] chunks.deep_view()[j].len()
                >= OUTPUT_BUFFER_UNITS - 1,
        decreases units@.len() - i,
    {
        let u: u16 = *vstd::slice::slice_index_get(units, i);
        let ghost buf_before = buf@;
        if u == 10 {
            buf.push(13u16);
        }
        buf.push(u);
        proof {
            lemma_crlf_expand_push(units@.take(i as int), u);
            assert(units@.take(i + 1 as int) =~= units@.take(i as int).push(u));
            assert(buf@ =~= buf_before + spec_unit_expansion(u));
            assert(spec_payload_concat(chunks.deep_view()) + buf@ =~= (spec_payload_concat(
                chunks.deep_view(),
            ) + buf_before) + spec_unit_expansion(u));
        }
        if buf.len() >= OUTPUT_BUFFER_UNITS - 2 {
            let ghost concat_before = spec_payload_concat(chunks.deep_view());
            let ghost deep_before = chunks.deep_view();
            let ghost payload = buf@;
            buf.push(0u16);
            let ghost full = buf@;
            chunks.push(buf);
            buf = Vec::new();
            proof {
                assert(chunks.deep_view() =~~= deep_before.push(full));
                assert(deep_before.push(full).drop_last() =~= deep_before);
                assert(spec_payload(full) =~= payload);
                assert(spec_payload_concat(chunks.deep_view()) + buf@ =~= concat_before + payload);
            }
        }
        i += 1;
    }
    proof {
        assert(units@.take(units@.len() as int) =~= units@);
    }
    if buf.len() > 0 {
        let ghost concat_before = spec_payload_concat(chunks.deep_view());
        let ghost deep_before = chunks.deep_view();
        let ghost payload = buf@;
        buf.push(0u16);
        let ghost full = buf@;
        chunks.push(buf);
        proof {
            assert(chunks.deep_view() =~~= deep_before.push(full));
            assert(deep_before.push(full).drop_last() =~= deep_before);
            assert(spec_payload(full) =~= payload);
            assert(spec_payload_concat(chunks.deep_view()) =~= concat_before + payload);
        }
    }
    chunks
}

/// Encodes a text for the firmware console and returns the chunks to hand
/// to the output-string call, in order.
///
/// Diagnostics are best effort: while no firmware service table is
/// registered the text is silently dropped and no chunk is produced.
/// Otherwise the characters narrow to code units, line feeds gain carriage
/// returns, and the units are chunked as [`chunk_for_output`] states:
/// concatenating the chunks minus their terminators reproduces the
/// expanded text exactly.
pub fn output_string(registry: &SystemTableRegistry, string: &str) -> (chunks: Vec<Vec<u16>>)
    ensures
        !registry.is_registered() ==> chunks@.len() == 0,
        registry.is_registered() ==> {
            &&& spec_payload_concat(chunks.deep_view()) == spec_crlf_expand(
                spec_text_units(string@),
            )
            &&& forall|j: int| 0 <= j < chunks.deep_view().len() ==> spec_chunk_wf(
                #[trigger] chunks.deep_view()[j],
            )
            &&& forall|j: int| 0 <= j < chunks.deep_view().len() - 1
                ==> #[trigger] chunks.deep_view()[j].len() >= OUTPUT_BUFFER_UNITS - 1
        },
{
    if registry.system_table().is_none() {
        return Vec::new();
    }
    let units = text_units(string);
    chunk_for_output(units.as_slice())
}

/// A text whose expanded encoding exceeds one buffer's payload cannot be
/// flushed in a single output-string call.
pub proof fn lemma_flush_boundary(chunks: Seq<Seq<u16>>, expanded: Seq<u16>)
    requires
        spec_payload_concat(chunks) == expanded,
        forall|j: int| 0 <= j < chunks.len() ==> spec_chunk_wf(#[trigger] chunks[j]),
        expanded.len() > OUTPUT_BUFFER_UNITS - 1,
    ensures
        chunks.len() >= 2,
{
    if chunks.len() == 0 {
        assert(expanded.len() == 0);
    } else if chunks.len() == 1 {
        assert(chunks.drop_last().len() == 0);
        assert(spec_payload_concat(chunks.drop_last()) =~= Seq::<u16>::empty());
        assert(spec_payload_concat(chunks) =~= Seq::<u16>::empty() + spec_payload(chunks.last()));
        assert(spec_payload_concat(chunks) =~= spec_payload(chunks.last()));
        assert(spec_payload(chunks.last()).len() <= OUTPUT_BUFFER_UNITS - 1);
    }
}

} // verus!
