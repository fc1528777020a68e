use vstd::prelude::*;

use crate::boot_record::BootRecord;
use crate::header::VD;
use crate::header::VDErr;
use crate::header::VDType;
use crate::header::header_parse;
use crate::pvd::PVD;

verus! {

/// One decoded volume descriptor of the chain.  A supplementary or
/// partition descriptor is recognized by its header and carried without
/// a payload.
#[derive(Debug, PartialEq, Eq)]
pub enum Descriptor {
    Boot(BootRecord),
    Primary(PVD),
    Supplementary,
    Partition,
    Terminator,
}

/// The header type each decoded descriptor corresponds to.
pub open spec fn desc_ty(d: Descriptor) -> VDType {
    match d {
        Descriptor::Boot(_) => VDType::BootRecord,
        Descriptor::Primary(_) => VDType::PrimaryVD,
        Descriptor::Supplementary => VDType::EVD,
        Descriptor::Partition => VDType::PartDes,
        Descriptor::Terminator => VDType::VDEnd,
    }
}

pub open spec fn desc_wf(d: Descriptor) -> bool {
    match d {
        Descriptor::Boot(br) => br.wf(),
        Descriptor::Primary(p) => p.wf(),
        _ => true,
    }
}

/// The first error one descriptor sector forces: a bad header, else
/// whatever the type-specific parse reports.
#[verifier::opaque]
pub open spec fn desc_err(s: Seq<u8>) -> Option<VDErr> {
    match header_parse(s) {
        Err(e) => Some(e),
        Ok(vd) => match vd.ty {
            VDType::BootRecord => BootRecord::parse_err(s),
            VDType::PrimaryVD => PVD::parse_err(s),
            _ => None,
        },
    }
}

/// The decoded descriptor holds exactly what the sector's bytes say.
#[verifier::opaque]
pub open spec fn desc_matches(d: Descriptor, s: Seq<u8>) -> bool {
    &&& header_parse(s) matches Ok(vd) && vd.ty == desc_ty(d)
    &&& match d {
        Descriptor::Boot(br) => br.parsed_from(s),
        Descriptor::Primary(p) => p.parsed_from(s),
        _ => true,
    }
}

/// Decode one sector of the descriptor chain: read the common header,
/// then dispatch on its type.
pub fn parse_descriptor(sector: &[u8]) -> (r: Result<Descriptor, VDErr>)
    requires
        sector@.len() == 2048,
    ensures
        match r {
            Ok(d) => {
                &&& desc_err(sector@) is None
                &&& header_parse(sector@) matches Ok(vd) && vd.ty == desc_ty(d)
                &&& desc_wf(d)
                &&& desc_matches(d, sector@)
            },
            Err(e) => desc_err(sector@) == Some(e),
        },
{
    proof {
        reveal(desc_err);
        reveal(desc_matches);
    }
    let vd = match VD::read_header(sector) {
        Ok(v) => v,
        Err(e) => {
            return Err(e);
        },
    };
    match vd.ty {
        VDType::BootRecord => match BootRecord::try_parse(sector) {
            Ok(br) => Ok(Descriptor::Boot(br)),
            Err(e) => Err(e),
        },
        VDType::PrimaryVD => match PVD::try_parse(sector) {
            Ok(p) => Ok(Descriptor::Primary(p)),
            Err(e) => Err(e),
        },
        VDType::EVD => Ok(Descriptor::Supplementary),
        VDType::PartDes => Ok(Descriptor::Partition),
        VDType::VDEnd => Ok(Descriptor::Terminator),
    }
}

/// The header types of the chain that starts the given data, sector by
/// sector up to but not including the terminator.  Running out of data
/// before a terminator, or any sector that fails to parse, ends the
/// walk with that error.
pub open spec fn walk_types(data: Seq<u8>) -> Result<Seq<VDType>, VDErr>
    decreases data.len(),
{
    if data.len() < 2048 {
        Err(VDErr::UnexpectedEnd)
    } else {
        let s = data.take(2048);
        match desc_err(s) {
            Some(e) => Err(e),
            None => {
                let ty = header_parse(s)->Ok_0.ty;
                if ty == VDType::VDEnd {
                    Ok(Seq::empty())
                } else {
                    match walk_types(data.skip(2048)) {
                        Err(e) => Err(e),
                        Ok(rest) => Ok(seq![ty] + rest),
                    }
                }
            },
        }
    }
}

/// Walk the descriptor chain from the start of the data: read one
/// sector at a time, stop at the terminator, and fail on the first bad
/// sector.  Exactly the sectors before the terminator are decoded; none
/// past it is touched.
#[verifier::rlimit(100)]
#[verifier::spinoff_prover]
pub fn walk_descriptors(data: &[u8]) -> (r: Result<Vec<Descriptor>, VDErr>)
    ensures
        match r {
            Ok(ds) => {
                &&& walk_types(data@) == Ok::<Seq<VDType>, VDErr>(
                    ds@.map_values(|d: Descriptor| desc_ty(d)),
                )
                &&& forall|k: int|
                    0 <= k < ds@.len() ==> desc_wf(#[trigger] ds@[k]) && desc_matches(
                        ds@[k],
                        data@.subrange(2048 * k, 2048 * (k + 1)),
                    )
            },
            Err(e) => walk_types(data@) == Err::<Seq<VDType>, VDErr>(e),
        },
{
    let mut out: Vec<Descriptor> = Vec::new();
    let mut off: usize = 0;
    proof {
        assert(data@.skip(0) =~= data@);
        assert(out@.map_values(|d: Descriptor| desc_ty(d)) =~= Seq::<VDType>::empty());
    }
    loop
        invariant
            off <= data@.len(),
            off == 2048 * out@.len(),
            forall|k: int|
                0 <= k < out@.len() ==> desc_wf(#[trigger] out@[k]) && desc_matches(
                    out@[k],
                    data@.subrange(2048 * k, 2048 * (k + 1)),
                ),
            walk_types(data@) == (match walk_types(data@.skip(off as int)) {
                Err(e) => Err::<Seq<VDType>, VDErr>(e),
                Ok(rest) => Ok::<Seq<VDType>, VDErr>(
                    out@.map_values(|d: Descriptor| desc_ty(d)) + rest,
                ),
            }),
        decreases data@.len() - off,
    {
        if data.len() < 2048 || off > data.len() - 2048 {
            return Err(VDErr::UnexpectedEnd);
        }
        let sector = vstd::slice::slice_subrange(data, off, off + 2048);
        proof {
            assert(sector@ =~= data@.skip(off as int).take(2048));
        }
        let d = match parse_descriptor(sector) {
            Ok(d) => d,
            Err(e) => {
                return Err(e);
            },
        };
        let ghost rest_data = data@.skip(off as int);
        match d {
            Descriptor::Terminator => {
                proof {
                    assert(walk_types(rest_data) == Ok::<Seq<VDType>, VDErr>(Seq::empty()));
                    assert(out@.map_values(|d: Descriptor| desc_ty(d)) + Seq::<VDType>::empty()
                        =~= out@.map_values(|d: Descriptor| desc_ty(d)));
                }
                return Ok(out);
            },
            other => {
                let ghost ty = desc_ty(other);
                let ghost prior = out@;
                let ghost prior_map = prior.map_values(|d: Descriptor| desc_ty(d));
                proof {
                    assert(rest_data.skip(2048) =~= data@.skip(off + 2048));
                    assert(walk_types(rest_data) == (match walk_types(data@.skip(off + 2048)) {
                        Err(e) => Err::<Seq<VDType>, VDErr>(e),
                        Ok(rest) => Ok::<Seq<VDType>, VDErr>(seq![ty] + rest),
                    }));
                }
                out.push(other);
                off = off + 2048;
                proof {
                    let new_map = out@.map_values(|d: Descriptor| desc_ty(d));
                    assert(out@ == prior.push(other));
                    assert(new_map =~= prior_map.push(ty));
                    match walk_types(data@.skip(off as int)) {
                        Err(e) => {
                            assert(walk_types(rest_data) == Err::<Seq<VDType>, VDErr>(e));
                            assert(walk_types(data@) == Err::<Seq<VDType>, VDErr>(e));
                        },
                        Ok(rest) => {
                            assert(walk_types(rest_data) == Ok::<Seq<VDType>, VDErr>(
                                seq![ty] + rest,
                            ));
                            assert(walk_types(data@) == Ok::<Seq<VDType>, VDErr>(
                                prior_map + (seq![ty] + rest),
                            ));
                            assert(prior_map + (seq![ty] + rest) =~= new_map + rest);
                        },
                    }
                    assert forall|k: int| 0 <= k < out@.len() implies desc_wf(#[trigger] out@[k])
                        && desc_matches(out@[k], data@.subrange(2048 * k, 2048 * (k + 1))) by {
                        if k == out@.len() - 1 {
                            assert(out@[k] == other);
                            assert(data@.subrange(2048 * k, 2048 * (k + 1)) =~= sector@);
                        } else {
                            assert(out@[k] == prior[k]);
                        }
                    }
                }
            },
        }
    }
}

/// A chain of one primary descriptor followed by a terminator yields
/// exactly that one descriptor: the walk decodes the first sector,
/// sees the terminator in the second, and stops there.
pub proof fn lemma_walk_primary_then_terminator(data: Seq<u8>)
    requires
        data.len() == 4096,
        desc_err(data.subrange(0, 2048)) is None,
        header_parse(data.subrange(0, 2048)) matches Ok(vd) && vd.ty == VDType::PrimaryVD,
        header_parse(data.subrange(2048, 4096)) matches Ok(vd2) && vd2.ty == VDType::VDEnd,
    ensures
        walk_types(data) == Ok::<Seq<VDType>, VDErr>(seq![VDType::PrimaryVD]),
{
    reveal(desc_err);
    assert(data.take(2048) =~= data.subrange(0, 2048));
    let rest = data.skip(2048);
    assert(rest.take(2048) =~= data.subrange(2048, 4096));
    assert(walk_types(rest) == Ok::<Seq<VDType>, VDErr>(Seq::empty()));
    assert(seq![VDType::PrimaryVD] + Seq::<VDType>::empty() =~= seq![VDType::PrimaryVD]);
}

} // verus!
