use vstd::prelude::*;

use crate::cleanup::{due_items, pending_items, Cleanup};
use crate::format::{audio_codec, conversion_args, gif_filter, pick_encoder, software_codec, ConverterFormat, codec_args, GIF_MAX_FPS};
use crate::gpu::{encoder_name, first_encoder, ConverterGPU, HostOs};
use crate::job::Job;
use crate::registry::start_outcome;
use crate::speed::ConversionSpeed;
use crate::text::occurs_in;

verus! {

/// Position of an x264-style preset on the ladder from fastest to slowest,
/// or -1 for another text.
pub open spec fn preset_position(p: Seq<char>) -> int {
    if p == "ultrafast"@ {
        0
    } else if p == "superfast"@ {
        1
    } else if p == "veryfast"@ {
        2
    } else if p == "faster"@ {
        3
    } else if p == "fast"@ {
        4
    } else if p == "medium"@ {
        5
    } else if p == "slow"@ {
        6
    } else if p == "slower"@ {
        7
    } else if p == "veryslow"@ {
        8
    } else {
        -1
    }
}

proof fn lemma_preset_literals()
    ensures
        "ultrafast"@ =~= seq!['u', 'l', 't', 'r', 'a', 'f', 'a', 's', 't'],
        "superfast"@ =~= seq!['s', 'u', 'p', 'e', 'r', 'f', 'a', 's', 't'],
        "veryfast"@ =~= seq!['v', 'e', 'r', 'y', 'f', 'a', 's', 't'],
        "faster"@ =~= seq!['f', 'a', 's', 't', 'e', 'r'],
        "fast"@ =~= seq!['f', 'a', 's', 't'],
        "medium"@ =~= seq!['m', 'e', 'd', 'i', 'u', 'm'],
        "slow"@ =~= seq!['s', 'l', 'o', 'w'],
        "slower"@ =~= seq!['s', 'l', 'o', 'w', 'e', 'r'],
        "veryslow"@ =~= seq!['v', 'e', 'r', 'y', 's', 'l', 'o', 'w'],
{
    reveal_strlit("ultrafast");
    reveal_strlit("superfast");
    reveal_strlit("veryfast");
    reveal_strlit("faster");
    reveal_strlit("fast");
    reveal_strlit("medium");
    reveal_strlit("slow");
    reveal_strlit("slower");
    reveal_strlit("veryslow");
}

proof fn lemma_preset_positions()
    ensures
        preset_position("ultrafast"@) == 0,
        preset_position("fast"@) == 4,
        preset_position("medium"@) == 5,
        preset_position("slow"@) == 6,
        preset_position("slower"@) == 7,
        preset_position("veryslow"@) == 8,
{
    lemma_preset_literals();
    assert("fast"@.len() == 4 && "slow"@.len() == 4 && "medium"@.len() == 6 && "faster"@.len() == 6
        && "slower"@.len() == 6 && "veryfast"@.len() == 8 && "veryslow"@.len() == 8
        && "ultrafast"@.len() == 9 && "superfast"@.len() == 9);
    assert("fast"@ != "ultrafast"@ && "fast"@ != "superfast"@ && "fast"@ != "veryfast"@ && "fast"@ != "faster"@);
    assert("medium"@ != "ultrafast"@ && "medium"@ != "superfast"@ && "medium"@ != "veryfast"@ && "medium"@ != "faster"@ && "medium"@ != "fast"@);
    assert("slow"@ != "ultrafast"@ && "slow"@ != "superfast"@ && "slow"@ != "veryfast"@ && "slow"@ != "faster"@ && "slow"@ != "fast"@ && "slow"@ != "medium"@) by {
        assert("slow"@[0] != "fast"@[0]);
    }
    assert("slower"@ != "ultrafast"@ && "slower"@ != "superfast"@ && "slower"@ != "veryfast"@ && "slower"@ != "faster"@ && "slower"@ != "fast"@ && "slower"@ != "medium"@ && "slower"@ != "slow"@) by {
        assert("slower"@[0] != "faster"@[0]);
        assert("slower"@[0] != "medium"@[0]);
    }
    assert("veryslow"@ != "ultrafast"@ && "veryslow"@ != "superfast"@ && "veryslow"@ != "veryfast"@ && "veryslow"@ != "faster"@ && "veryslow"@ != "fast"@ && "veryslow"@ != "medium"@ && "veryslow"@ != "slow"@ && "veryslow"@ != "slower"@) by {
        assert("veryslow"@[4] != "veryfast"@[4]);
    }
}

/// Away from NVIDIA, the six speed presets map to six distinct software
/// presets, strictly slower for each slower speed.
pub proof fn lemma_software_presets_strictly_monotonic(gpu: ConverterGPU, a: ConversionSpeed, b: ConversionSpeed)
    requires
        gpu != ConverterGPU::NVIDIA,
    ensures
        a.rank() < b.rank() ==> preset_position(a.preset(gpu)) < preset_position(b.preset(gpu)),
        a.preset(gpu) == b.preset(gpu) <==> a == b,
        preset_position(a.preset(gpu)) >= 0,
{
    lemma_preset_positions();
    assert(preset_position(a.preset(gpu)) == 3 + a.rank() || a.rank() == 0 && preset_position(a.preset(gpu)) == 0);
    assert(preset_position(b.preset(gpu)) == 3 + b.rank() || b.rank() == 0 && preset_position(b.preset(gpu)) == 0);
    if a.preset(gpu) == b.preset(gpu) {
        assert(a.rank() == b.rank());
    }
}

/// Under NVIDIA the six speed presets collapse onto exactly three presets,
/// `fast`, `medium` and `slow`, never faster for a slower speed.
pub proof fn lemma_nvidia_presets_collapse(a: ConversionSpeed, b: ConversionSpeed)
    ensures
        a.rank() <= b.rank() ==> preset_position(a.preset(ConverterGPU::NVIDIA)) <= preset_position(
            b.preset(ConverterGPU::NVIDIA),
        ),
        a.preset(ConverterGPU::NVIDIA) == "fast"@ || a.preset(ConverterGPU::NVIDIA) == "medium"@
            || a.preset(ConverterGPU::NVIDIA) == "slow"@,
        ConversionSpeed::Fast.preset(ConverterGPU::NVIDIA) == "fast"@,
        ConversionSpeed::Medium.preset(ConverterGPU::NVIDIA) == "medium"@,
        ConversionSpeed::Slow.preset(ConverterGPU::NVIDIA) == "medium"@,
        ConversionSpeed::Slower.preset(ConverterGPU::NVIDIA) == "slow"@,
        "fast"@ != "medium"@ && "medium"@ != "slow"@ && "fast"@ != "slow"@,
{
    lemma_preset_positions();
}

proof fn lemma_encoder_name_nonempty(codec: Seq<char>, suffix: Seq<char>)
    ensures
        encoder_name(codec, suffix).len() > 0,
{
    reveal_strlit("_");
}

proof fn lemma_pick_encoder_nonempty(listing: Seq<char>, codecs: Seq<Seq<char>>, prio: Seq<Seq<char>>, default: Seq<char>)
    requires
        default.len() > 0,
    ensures
        pick_encoder(listing, codecs, prio, default).len() > 0,
    decreases codecs.len(),
{
    if codecs.len() > 0 {
        lemma_first_encoder_shape(listing, codecs[0], prio);
        lemma_pick_encoder_nonempty(listing, codecs.drop_first(), prio, default);
    }
}

proof fn lemma_first_encoder_shape(listing: Seq<char>, codec: Seq<char>, prio: Seq<Seq<char>>)
    ensures
        first_encoder(listing, codec, prio) matches Some(e) ==> e.len() > 0 && occurs_in(e, listing),
    decreases prio.len(),
{
    if prio.len() > 0 {
        lemma_encoder_name_nonempty(codec, prio[0]);
        lemma_first_encoder_shape(listing, codec, prio.drop_first());
    }
}

/// For every target format but the animated image, the synthesized
/// arguments pair a (non-empty) video encoder with the format's fixed audio
/// encoder; and they carry a bitrate argument exactly when the format is
/// not the animated image.
pub proof fn lemma_codec_pairing(
    to: ConverterFormat,
    speed: ConversionSpeed,
    gpu: ConverterGPU,
    os: HostOs,
    bitrate: u64,
    fps: u32,
    listing: Seq<char>,
)
    ensures
        ({
            let a = conversion_args(to, speed, gpu, os, bitrate, fps, listing);
            &&& to != ConverterFormat::GIF ==> {
                &&& a.len() >= 4
                &&& a[0] == "-c:v"@
                &&& a[1].len() > 0
                &&& a[2] == "-c:a"@
                &&& a[3] == audio_codec(to)
                &&& audio_codec(to).len() > 0
            }
            &&& (exists|i: int| 0 <= i < a.len() && a[i] == "-b:v"@) <==> to != ConverterFormat::GIF
        }),
{
    let a = conversion_args(to, speed, gpu, os, bitrate, fps, listing);
    let c = codec_args(to, gpu, os, fps, listing);
    let s = speed.args_spec(to, gpu, bitrate);
    assert(a == c + s);
    reveal_strlit("-b:v");
    reveal_strlit("aac");
    reveal_strlit("wmav2");
    reveal_strlit("libvorbis");
    reveal_strlit("libmp3lame");
    reveal_strlit("libx264");
    reveal_strlit("wmv2");
    reveal_strlit("libvpx");
    reveal_strlit("mpeg4");
    if to != ConverterFormat::GIF {
        lemma_pick_encoder_nonempty(listing, crate::format::video_codecs(to), gpu.priority(os), software_codec(to));
        assert(a[0] == c[0]);
        assert(a[1] == c[1]);
        assert(a[2] == c[2]);
        assert(a[3] == c[3]);
        let i = a.len() - 2;
        assert(a[i] == "-b:v"@);
    } else {
        reveal_strlit("-filter_complex");
        reveal_strlit("fps=");
        assert(s.len() == 0);
        assert(a == c);
        assert(gif_filter(fps)[0] == 'f');
        assert forall|i: int| 0 <= i < a.len() implies a[i] != "-b:v"@ by {
            if i == 0 {
                assert(a[0].len() != "-b:v"@.len());
            } else {
                assert(a[1][0] != "-b:v"@[0]);
            }
        }
    }
}

/// An animated-image target gets exactly its filter graph: no codec,
/// speed or bitrate arguments; and any source frame rate of 24 or more is
/// declared as 24.
pub proof fn lemma_gif_args(
    speed: ConversionSpeed,
    gpu: ConverterGPU,
    os: HostOs,
    bitrate: u64,
    fps: u32,
    listing: Seq<char>,
)
    ensures
        conversion_args(ConverterFormat::GIF, speed, gpu, os, bitrate, fps, listing) == seq![
            "-filter_complex"@,
            gif_filter(fps),
        ],
        fps >= GIF_MAX_FPS ==> gif_filter(fps) == gif_filter(GIF_MAX_FPS),
{
    let c = codec_args(ConverterFormat::GIF, gpu, os, fps, listing);
    assert(speed.args_spec(ConverterFormat::GIF, gpu, bitrate) == Seq::<Seq<char>>::empty());
    assert(c + Seq::<Seq<char>>::empty() == c);
}

/// Encoder resolution is first-match: the backend at position `i` wins
/// when its encoder occurs in the listing and no earlier one does.
pub proof fn lemma_first_match_wins(listing: Seq<char>, codec: Seq<char>, prio: Seq<Seq<char>>, i: int)
    requires
        0 <= i < prio.len(),
        occurs_in(encoder_name(codec, prio[i]), listing),
        forall|j: int| 0 <= j < i ==> !occurs_in(encoder_name(codec, #[trigger] prio[j]), listing),
    ensures
        first_encoder(listing, codec, prio) == Some(encoder_name(codec, prio[i])),
    decreases i,
{
    if i > 0 {
        assert(!occurs_in(encoder_name(codec, prio[0]), listing));
        assert forall|j: int| 0 <= j < i - 1 implies !occurs_in(
            encoder_name(codec, #[trigger] prio.drop_first()[j]),
            listing,
        ) by {
            assert(prio.drop_first()[j] == prio[j + 1]);
        }
        lemma_first_match_wins(listing, codec, prio.drop_first(), i - 1);
    }
}

/// When none of the candidate encoders occurs in the listing, resolution
/// gives the software default; never an error.
pub proof fn lemma_no_match_gives_default(
    listing: Seq<char>,
    codecs: Seq<Seq<char>>,
    prio: Seq<Seq<char>>,
    default: Seq<char>,
)
    requires
        forall|c: int, k: int|
            0 <= c < codecs.len() && 0 <= k < prio.len() ==> !occurs_in(
                #[trigger] encoder_name(codecs[c], prio[k]),
                listing,
            ),
    ensures
        pick_encoder(listing, codecs, prio, default) == default,
    decreases codecs.len(),
{
    if codecs.len() > 0 {
        lemma_no_first_encoder(listing, codecs[0], prio);
        assert forall|c: int, k: int|
            0 <= c < codecs.drop_first().len() && 0 <= k < prio.len() implies !occurs_in(
                #[trigger] encoder_name(codecs.drop_first()[c], prio[k]),
                listing,
            ) by {
            assert(codecs.drop_first()[c] == codecs[c + 1]);
        }
        lemma_no_match_gives_default(listing, codecs.drop_first(), prio, default);
    }
}

proof fn lemma_no_first_encoder(listing: Seq<char>, codec: Seq<char>, prio: Seq<Seq<char>>)
    requires
        forall|k: int| 0 <= k < prio.len() ==> !occurs_in(#[trigger] encoder_name(codec, prio[k]), listing),
    ensures
        first_encoder(listing, codec, prio) is None,
    decreases prio.len(),
{
    if prio.len() > 0 {
        assert(!occurs_in(encoder_name(codec, prio[0]), listing));
        assert forall|k: int| 0 <= k < prio.drop_first().len() implies !occurs_in(
            #[trigger] encoder_name(codec, prio.drop_first()[k]),
            listing,
        ) by {
            assert(prio.drop_first()[k] == prio[k + 1]);
        }
        lemma_no_first_encoder(listing, codec, prio.drop_first());
    }
}

/// With an empty encoder listing every resolution gives the software
/// default.
pub proof fn lemma_empty_listing_gives_default(codecs: Seq<Seq<char>>, prio: Seq<Seq<char>>, default: Seq<char>)
    ensures
        pick_encoder(Seq::<char>::empty(), codecs, prio, default) == default,
{
    assert forall|c: int, k: int|
        0 <= c < codecs.len() && 0 <= k < prio.len() implies !occurs_in(
            #[trigger] encoder_name(codecs[c], prio[k]),
            Seq::<char>::empty(),
        ) by {
        lemma_encoder_name_nonempty(codecs[c], prio[k]);
    }
    lemma_no_match_gives_default(Seq::<char>::empty(), codecs, prio, default);
}

/// Reclaiming a job removes it from the registry, and reclaiming it again
/// changes nothing.
pub proof fn lemma_reclaim_idempotent(m: Map<u128, Job>, id: u128)
    ensures
        !m.remove(id).contains_key(id),
        m.remove(id).remove(id) == m.remove(id),
{
    assert(m.remove(id).remove(id) =~= m.remove(id));
}

/// A cleanup whose deadline has passed is handed out by the sweep, and
/// nothing that is due stays behind.
pub proof fn lemma_cleanup_fires(s: Seq<Cleanup>, now: u64, i: int)
    requires
        0 <= i < s.len(),
        s[i].due <= now,
    ensures
        due_items(s, now).contains(s[i]),
        forall|k: int| 0 <= k < pending_items(s, now).len() ==> #[trigger] pending_items(s, now)[k].due > now,
    decreases s.len(),
{
    lemma_pending_not_due(s, now);
    if i < s.len() - 1 {
        assert(s.drop_last()[i] == s[i]);
        lemma_cleanup_fires(s.drop_last(), now, i);
        let d = due_items(s.drop_last(), now);
        if s.last().due <= now {
            let j = choose|j: int| 0 <= j < d.len() && d[j] == s[i];
            assert(d.push(s.last())[j] == s[i]);
        }
    } else {
        assert(due_items(s, now).last() == s[i]);
    }
}

proof fn lemma_pending_not_due(s: Seq<Cleanup>, now: u64)
    ensures
        forall|k: int| 0 <= k < pending_items(s, now).len() ==> #[trigger] pending_items(s, now)[k].due > now,
    decreases s.len(),
{
    if s.len() > 0 {
        lemma_pending_not_due(s.drop_last(), now);
        let p = pending_items(s.drop_last(), now);
        if s.last().due > now {
            assert forall|k: int| 0 <= k < p.push(s.last()).len() implies #[trigger] p.push(s.last())[k].due > now by {
                if k < p.len() {
                    assert(p.push(s.last())[k] == p[k]);
                }
            }
        }
    }
}

/// A `StartJob` whose token differs from the job's stored token is
/// refused; `AppState::start_job` then leaves the registry unchanged.
pub proof fn lemma_bad_token_refused(m: Map<u128, Job>, id: u128, token: Seq<char>, to: Seq<char>)
    requires
        m.contains_key(id),
        m[id].auth@ != token,
    ensures
        start_outcome(m, id, token, to) is Err,
{
}

} // verus!
