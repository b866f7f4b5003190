use vstd::prelude::*;

use crate::config::{
    channel_outcome, earlier_address, earlier_topic, effective_rate, filled_channel, is_flatbuffer,
    resolved_channel, resolved_config, scan_channels, validate_outcome, ChannelView, ConfigView,
    OptionsView,
};
use crate::rate::POSITIVE_INFINITY_BITS;
use crate::error::ErrorView;
use crate::rate::rate_is_usable;
use crate::text::is_blank;

verus! {

/// Every channel of `chs` passes its own checks, and no topic and no TISM
/// address occurs twice.
pub open spec fn channels_acceptable(chs: Seq<ChannelView>, d: OptionsView, present: Seq<bool>) -> bool {
    &&& forall|i: int| 0 <= i < chs.len() ==> (#[trigger] channel_outcome(chs[i], d, present[i])) is Ok
    &&& forall|i: int, j: int| 0 <= i < j < chs.len() ==> #[trigger] chs[i].topic != #[trigger] chs[j].topic
    &&& forall|i: int, j: int|
        0 <= i < j < chs.len() ==> #[trigger] chs[i].tism_address != #[trigger] chs[j].tism_address
}

/// A channel as the bridge runs it: its address and topic are not blank, its
/// rate is finite and positive, it names a schema exactly when it has a schema
/// path, and a FlatBuffer channel has a schema name, a schema path and a
/// schema encoding.
pub open spec fn channel_is_runnable(c: ChannelView, d: OptionsView) -> bool {
    &&& !is_blank(c.tism_address)
    &&& !is_blank(c.topic)
    &&& rate_is_usable(effective_rate(c, d).0)
    &&& (c.schema_name is Some <==> c.schema_path is Some)
    &&& is_flatbuffer(c) ==> c.schema_name is Some && c.schema_path is Some && c.schema_encoding is Some
}

/// A configuration as the bridge runs it: at least one channel, every channel
/// runnable, topics unique and TISM addresses unique.
pub open spec fn config_is_runnable(cfg: ConfigView) -> bool {
    &&& cfg.channels.len() > 0
    &&& forall|i: int| 0 <= i < cfg.channels.len() ==> channel_is_runnable(#[trigger] cfg.channels[i], cfg.bridge)
    &&& forall|i: int, j: int|
        0 <= i < j < cfg.channels.len() ==> #[trigger] cfg.channels[i].topic != #[trigger] cfg.channels[j].topic
    &&& forall|i: int, j: int|
        0 <= i < j < cfg.channels.len() ==> #[trigger] cfg.channels[i].tism_address
            != #[trigger] cfg.channels[j].tism_address
}

pub open spec fn with_channels(cfg: ConfigView, chs: Seq<ChannelView>) -> ConfigView {
    ConfigView { channels: chs, ..cfg }
}

pub open spec fn ok_channel(c: ChannelView) -> Result<ChannelView, ErrorView> {
    Ok(c)
}

proof fn lemma_scan_characterized(chs: Seq<ChannelView>, d: OptionsView, present: Seq<bool>, n: nat)
    requires
        n <= chs.len(),
        present.len() == chs.len(),
    ensures
        (scan_channels(chs, d, present, n) is Ok) <==> channels_acceptable(chs.take(n as int), d, present.take(n as int)),
        scan_channels(chs, d, present, n) is Ok ==> scan_channels(chs, d, present, n)->Ok_0
            == chs.take(n as int).map_values(|c: ChannelView| filled_channel(c)),
    decreases n,
{
    let pre = chs.take(n as int);
    let pp = present.take(n as int);
    if n == 0 {
        assert(pre.map_values(|c: ChannelView| filled_channel(c)) =~= Seq::<ChannelView>::empty());
    } else {
        let i = n - 1;
        lemma_scan_characterized(chs, d, present, (n - 1) as nat);
        let prev = chs.take(i as int);
        let prevp = present.take(i as int);
        assert(pre.take(i as int) =~= prev);
        assert(pp.take(i as int) =~= prevp);
        if channels_acceptable(pre, d, pp) {
            assert forall|k: int| 0 <= k < prev.len() implies (#[trigger] channel_outcome(prev[k], d, prevp[k])) is Ok by {
                assert(prev[k] == pre[k]);
                assert(channel_outcome(pre[k], d, pp[k]) is Ok);
            }
            assert forall|a: int, b: int| 0 <= a < b < prev.len() implies #[trigger] prev[a].topic != #[trigger] prev[b].topic by {
                assert(pre[a].topic != pre[b].topic);
            }
            assert forall|a: int, b: int| 0 <= a < b < prev.len() implies #[trigger] prev[a].tism_address != #[trigger] prev[b].tism_address by {
                assert(pre[a].tism_address != pre[b].tism_address);
            }
            assert(channel_outcome(pre[i as int], d, pp[i as int]) is Ok);
            assert(!earlier_topic(chs, i as int)) by {
                if earlier_topic(chs, i as int) {
                    let j = choose|j: int| 0 <= j < i && chs[j].topic == chs[i as int].topic;
                    assert(pre[j].topic != pre[i as int].topic);
                }
            }
            assert(!earlier_address(chs, i as int)) by {
                if earlier_address(chs, i as int) {
                    let j = choose|j: int| 0 <= j < i && chs[j].tism_address == chs[i as int].tism_address;
                    assert(pre[j].tism_address != pre[i as int].tism_address);
                }
            }
            assert(pre.map_values(|c: ChannelView| filled_channel(c)) =~= prev.map_values(
                |c: ChannelView| filled_channel(c),
            ).push(filled_channel(chs[i as int])));
        }
        if scan_channels(chs, d, present, n) is Ok {
            assert(channel_outcome(chs[i as int], d, present[i as int]) is Ok);
            assert(!earlier_topic(chs, i as int));
            assert(!earlier_address(chs, i as int));
            assert forall|k: int| 0 <= k < pre.len() implies (#[trigger] channel_outcome(pre[k], d, pp[k])) is Ok by {
                if k < i {
                    assert(prev[k] == pre[k]);
                    assert(channel_outcome(prev[k], d, prevp[k]) is Ok);
                }
            }
            assert forall|a: int, b: int| 0 <= a < b < pre.len() implies #[trigger] pre[a].topic != #[trigger] pre[b].topic by {
                if b < i {
                    assert(prev[a].topic != prev[b].topic);
                } else {
                    assert(!(0 <= a < i && chs[a].topic == chs[i as int].topic));
                }
            }
            assert forall|a: int, b: int| 0 <= a < b < pre.len() implies #[trigger] pre[a].tism_address != #[trigger] pre[b].tism_address by {
                if b < i {
                    assert(prev[a].tism_address != prev[b].tism_address);
                } else {
                    assert(!(0 <= a < i && chs[a].tism_address == chs[i as int].tism_address));
                }
            }
            assert(pre.map_values(|c: ChannelView| filled_channel(c)) =~= prev.map_values(
                |c: ChannelView| filled_channel(c),
            ).push(filled_channel(chs[i as int])));
        }
    }
}

/// Validation succeeds exactly when there is at least one channel, every
/// channel passes its own checks, and no topic and no TISM address occurs
/// twice; what it returns is the configuration with each FlatBuffer
/// channel's missing schema encoding filled in, and nothing else changed.
pub proof fn law_validation_accepts_exactly(cfg: ConfigView, present: Seq<bool>)
    requires
        present.len() == cfg.channels.len(),
    ensures
        (validate_outcome(cfg, present) is Ok) <==> (cfg.channels.len() > 0 && channels_acceptable(
            cfg.channels,
            cfg.bridge,
            present,
        )),
        validate_outcome(cfg, present) is Ok ==> validate_outcome(cfg, present)->Ok_0 == with_channels(
            cfg,
            cfg.channels.map_values(|c: ChannelView| filled_channel(c)),
        ),
{
    let n = cfg.channels.len();
    lemma_scan_characterized(cfg.channels, cfg.bridge, present, n);
    assert(cfg.channels.take(n as int) =~= cfg.channels);
    assert(present.take(n as int) =~= present);
}

proof fn lemma_filled_keeps_outcome(c: ChannelView, d: OptionsView, file_present: bool)
    requires
        channel_outcome(c, d, file_present) is Ok,
    ensures
        channel_outcome(filled_channel(c), d, file_present) == ok_channel(filled_channel(c)),
        channel_is_runnable(filled_channel(c), d),
{
}

/// What validation accepts is runnable: at least one channel, every channel
/// with a non-blank address and topic, a finite positive rate and a coherent
/// schema, and no topic or TISM address twice.
pub proof fn law_accepted_config_is_runnable(cfg: ConfigView, present: Seq<bool>)
    requires
        present.len() == cfg.channels.len(),
        validate_outcome(cfg, present) is Ok,
    ensures
        config_is_runnable(validate_outcome(cfg, present)->Ok_0),
{
    law_validation_accepts_exactly(cfg, present);
    let out = validate_outcome(cfg, present)->Ok_0;
    assert forall|i: int| 0 <= i < out.channels.len() implies channel_is_runnable(#[trigger] out.channels[i], out.bridge) by {
        assert(channel_outcome(cfg.channels[i], cfg.bridge, present[i]) is Ok);
        lemma_filled_keeps_outcome(cfg.channels[i], cfg.bridge, present[i]);
    }
    assert forall|i: int, j: int| 0 <= i < j < out.channels.len() implies #[trigger] out.channels[i].topic
        != #[trigger] out.channels[j].topic by {
        assert(cfg.channels[i].topic != cfg.channels[j].topic);
    }
    assert forall|i: int, j: int| 0 <= i < j < out.channels.len() implies #[trigger] out.channels[i].tism_address
        != #[trigger] out.channels[j].tism_address by {
        assert(cfg.channels[i].tism_address != cfg.channels[j].tism_address);
    }
}

/// Validating an accepted configuration again, with the file system giving
/// the same answers, accepts it unchanged.
pub proof fn law_validation_is_idempotent(cfg: ConfigView, present: Seq<bool>)
    requires
        present.len() == cfg.channels.len(),
        validate_outcome(cfg, present) is Ok,
    ensures
        validate_outcome(validate_outcome(cfg, present)->Ok_0, present) == validate_outcome(cfg, present),
{
    law_validation_accepts_exactly(cfg, present);
    let out = validate_outcome(cfg, present)->Ok_0;
    assert forall|i: int| 0 <= i < out.channels.len() implies (#[trigger] channel_outcome(out.channels[i], out.bridge, present[i])) is Ok by {
        assert(channel_outcome(cfg.channels[i], cfg.bridge, present[i]) is Ok);
        lemma_filled_keeps_outcome(cfg.channels[i], cfg.bridge, present[i]);
    }
    assert forall|i: int, j: int| 0 <= i < j < out.channels.len() implies #[trigger] out.channels[i].topic
        != #[trigger] out.channels[j].topic by {
        assert(cfg.channels[i].topic != cfg.channels[j].topic);
    }
    assert forall|i: int, j: int| 0 <= i < j < out.channels.len() implies #[trigger] out.channels[i].tism_address
        != #[trigger] out.channels[j].tism_address by {
        assert(cfg.channels[i].tism_address != cfg.channels[j].tism_address);
    }
    law_validation_accepts_exactly(out, present);
    assert(out.channels.map_values(|c: ChannelView| filled_channel(c)) =~= out.channels) by {
        assert forall|i: int| 0 <= i < out.channels.len() implies filled_channel(#[trigger] out.channels[i]) == out.channels[i] by {
            assert(channel_outcome(cfg.channels[i], cfg.bridge, present[i]) is Ok);
        }
    }
}

/// A channel publishes at its own rate when it sets one, whatever that rate
/// and the default are, and at the bridge default only when it sets none.
pub proof fn law_channel_rate_wins(c: ChannelView, d: OptionsView)
    ensures
        c.publish_hz matches Some(h) ==> effective_rate(c, d) == h,
        c.publish_hz is None ==> effective_rate(c, d) == d.default_publish_hz,
{
}

/// Every channel that meets the documented rules is accepted: a non-blank
/// TISM address and topic, a rate (its own, else the default) that is
/// finite and strictly positive, a schema name exactly when there is a schema
/// path (both for a FlatBuffer channel), and a schema file that exists. No
/// other property of the channel (the form of its topic, its address, its
/// encoding, its limits) can make it fail.
pub proof fn law_runnable_channel_accepted(c: ChannelView, d: OptionsView, file_present: bool)
    requires
        !is_blank(c.tism_address),
        !is_blank(c.topic),
        ({
            let bits = match c.publish_hz {
                Some(h) => h.0,
                None => d.default_publish_hz.0,
            };
            0 < bits && bits < POSITIVE_INFINITY_BITS
        }),
        c.schema_name is Some <==> c.schema_path is Some,
        c.message_encoding == "flatbuffer"@ ==> c.schema_name is Some,
        c.schema_path is Some ==> file_present,
    ensures
        channel_outcome(c, d, file_present) is Ok,
        channel_outcome(c, d, file_present)->Ok_0.topic == c.topic,
        channel_outcome(c, d, file_present)->Ok_0.tism_address == c.tism_address,
        channel_outcome(c, d, file_present)->Ok_0.schema_path == c.schema_path,
{
}

/// A configuration whose channels all meet the documented rules, with unique
/// topics and unique TISM addresses and every named schema file present, is
/// accepted.
pub proof fn law_runnable_config_accepted(cfg: ConfigView, present: Seq<bool>)
    requires
        cfg.channels.len() > 0,
        present.len() == cfg.channels.len(),
        forall|i: int| 0 <= i < cfg.channels.len() ==> {
            let c = #[trigger] cfg.channels[i];
            let bits = match c.publish_hz {
                Some(h) => h.0,
                None => cfg.bridge.default_publish_hz.0,
            };
            &&& !is_blank(c.tism_address)
            &&& !is_blank(c.topic)
            &&& 0 < bits && bits < POSITIVE_INFINITY_BITS
            &&& (c.schema_name is Some <==> c.schema_path is Some)
            &&& (c.message_encoding == "flatbuffer"@ ==> c.schema_name is Some)
            &&& (c.schema_path is Some ==> present[i])
        },
        forall|i: int, j: int| 0 <= i < j < cfg.channels.len() ==> #[trigger] cfg.channels[i].topic != #[trigger] cfg.channels[j].topic,
        forall|i: int, j: int|
            0 <= i < j < cfg.channels.len() ==> #[trigger] cfg.channels[i].tism_address != #[trigger] cfg.channels[j].tism_address,
    ensures
        validate_outcome(cfg, present) is Ok,
{
    assert forall|i: int| 0 <= i < cfg.channels.len() implies (#[trigger] channel_outcome(cfg.channels[i], cfg.bridge, present[i])) is Ok by {
        law_runnable_channel_accepted(cfg.channels[i], cfg.bridge, present[i]);
    }
    law_validation_accepts_exactly(cfg, present);
}

/// A schema path is read relative to the configuration's directory `base`,
/// whether `base` itself is relative or absolute: a relative path comes out
/// as `base`, then a `/` unless `base` is empty or already ends in one, then
/// the path; only an absolute path (one starting with `/`) is kept as it
/// is. Nothing else of the channel changes.
pub proof fn law_relative_schema_paths_join_base(c: ChannelView, base: Seq<char>)
    ensures
        resolved_channel(c, base).schema_path == match c.schema_path {
            Some(p) => Some(
                if p.len() > 0 && p[0] == '/' {
                    p
                } else if base.len() == 0 || base.last() == '/' {
                    base + p
                } else {
                    base + seq!['/'] + p
                },
            ),
            None => None::<Seq<char>>,
        },
        resolved_channel(c, base).topic == c.topic,
        resolved_channel(c, base).tism_address == c.tism_address,
        resolved_channel(c, base).schema_name == c.schema_name,
        resolved_channel(c, base).message_encoding == c.message_encoding,
{
    reveal_strlit("/");
    if c.schema_path is Some {
        let p = c.schema_path->0;
        if !(p.len() > 0 && p[0] == '/') && !(base.len() == 0 || base.last() == '/') {
            assert("/"@ =~= seq!['/']);
        }
    }
}

/// Resolving a whole configuration against a directory treats every channel
/// as [`law_relative_schema_paths_join_base`] says, and keeps the channel
/// count.
pub proof fn law_resolved_config_channels(cfg: ConfigView, base: Seq<char>)
    ensures
        resolved_config(cfg, Some(base)).channels.len() == cfg.channels.len(),
        forall|i: int| 0 <= i < cfg.channels.len() ==> #[trigger] resolved_config(cfg, Some(base)).channels[i]
            == resolved_channel(cfg.channels[i], base),
        resolved_config(cfg, None).channels == cfg.channels,
{
}

} // verus!
