//! Reading a [`WallpaperConfig`] out of its JSON wire format.
//!
//! The shape is an object `{"mode": <label>, "monitors": [<entry>...]}`.
//! An entry with a `monitor`, a valid `wallpaper_type` and a `filepath`
//! or `uri` (all strings) is a `Primary`; failing that, an entry with a
//! `monitor` and at most a string (or null) `clone_source` is a `Clone`;
//! anything else is rejected. Unknown keys are ignored, and of a
//! repeated key the first occurrence counts.

use vstd::prelude::*;

use crate::config::{
    MonitorConfig, MonitorConfigV, WallpaperConfig, WallpaperConfigV, WallpaperMode,
    WallpaperSource, WallpaperSourceV, WallpaperType,
};
use crate::json::{
    jps_view, jv_view, jvs_view, lemma_jps_view_index, lemma_jvs_view_index, parse_json,
    spec_parse_json, JsonValue, JsonValueV,
};
use crate::text::str_eq;

verus! {

/// Why a configuration string was rejected.
#[derive(Debug, Clone, Copy, PartialEq, Eq, Structural)]
pub enum ConfigError {
    /// The text is not well-formed JSON.
    MalformedJson,
    /// The JSON does not have the configuration's shape, or an enum
    /// label is unknown.
    InvalidShape,
}

/// The value under the first occurrence of `key`.
pub open spec fn spec_lookup(
    ps: Seq<(Seq<char>, JsonValueV)>,
    key: Seq<char>,
) -> Option<JsonValueV>
    decreases ps.len(),
{
    if ps.len() == 0 {
        None
    } else if ps[0].0 == key {
        Some(ps[0].1)
    } else {
        spec_lookup(ps.skip(1), key)
    }
}

/// The wallpaper type a label names.
pub open spec fn spec_wallpaper_type(t: Seq<char>) -> Option<WallpaperType> {
    if t == "video"@ {
        Some(WallpaperType::Video)
    } else if t == "web"@ {
        Some(WallpaperType::Web)
    } else {
        None
    }
}

/// The arrangement mode a label names.
pub open spec fn spec_mode(t: Seq<char>) -> Option<WallpaperMode> {
    if t == "wallpaper_per_monitor"@ {
        Some(WallpaperMode::WallpaperPerMonitor)
    } else if t == "clone_single_wallpaper"@ {
        Some(WallpaperMode::CloneSingleWallpaper)
    } else if t == "stretch_single_wallpaper"@ {
        Some(WallpaperMode::StretchSingleWallpaper)
    } else {
        None
    }
}

/// The source of a `Primary` entry: a string `filepath` wins over a
/// string `uri`.
pub open spec fn spec_source_of(ps: Seq<(Seq<char>, JsonValueV)>) -> Option<WallpaperSourceV> {
    match spec_lookup(ps, "filepath"@) {
        Some(JsonValueV::Str(f)) => Some(WallpaperSourceV::Filepath { filepath: f }),
        _ => match spec_lookup(ps, "uri"@) {
            Some(JsonValueV::Str(u)) => Some(WallpaperSourceV::Uri { uri: u }),
            _ => None,
        },
    }
}

/// What a `Primary` reading of the entry would yield.
pub open spec fn spec_primary_parts(
    ps: Seq<(Seq<char>, JsonValueV)>,
) -> Option<(WallpaperType, WallpaperSourceV)> {
    match spec_lookup(ps, "wallpaper_type"@) {
        Some(JsonValueV::Str(t)) => match spec_wallpaper_type(t) {
            Some(wt) => match spec_source_of(ps) {
                Some(src) => Some((wt, src)),
                None => None,
            },
            None => None,
        },
        _ => None,
    }
}

/// The monitor entry a JSON value describes, if any.
pub open spec fn spec_monitor_entry(v: JsonValueV) -> Option<MonitorConfigV> {
    match v {
        JsonValueV::Obj(ps) => match spec_lookup(ps, "monitor"@) {
            Some(JsonValueV::Str(mon)) => match spec_primary_parts(ps) {
                Some((wt, src)) => Some(
                    MonitorConfigV::Primary {
                        monitor: mon,
                        wallpaper_type: wt,
                        wallpaper_source: src,
                    },
                ),
                None => match spec_lookup(ps, "clone_source"@) {
                    None => Some(MonitorConfigV::Clone { monitor: mon, clone_source: None }),
                    Some(JsonValueV::Null) => Some(
                        MonitorConfigV::Clone { monitor: mon, clone_source: None },
                    ),
                    Some(JsonValueV::Str(cs)) => Some(
                        MonitorConfigV::Clone { monitor: mon, clone_source: Some(cs) },
                    ),
                    Some(_) => None,
                },
            },
            _ => None,
        },
        _ => None,
    }
}

/// All monitor entries, or nothing if any entry is rejected.
pub open spec fn spec_monitor_entries(xs: Seq<JsonValueV>) -> Option<Seq<MonitorConfigV>>
    decreases xs.len(),
{
    if xs.len() == 0 {
        Some(Seq::empty())
    } else {
        match spec_monitor_entry(xs[0]) {
            Some(m) => match spec_monitor_entries(xs.skip(1)) {
                Some(r) => Some(seq![m] + r),
                None => None,
            },
            None => None,
        }
    }
}

/// The configuration a JSON document describes, if any.
pub open spec fn spec_config_of_json(v: JsonValueV) -> Option<WallpaperConfigV> {
    match v {
        JsonValueV::Obj(ps) => match (spec_lookup(ps, "mode"@), spec_lookup(ps, "monitors"@)) {
            (Some(JsonValueV::Str(m)), Some(JsonValueV::Arr(xs))) => match spec_mode(m) {
                Some(mode) => match spec_monitor_entries(xs) {
                    Some(ms) => Some(WallpaperConfigV { mode, monitors: ms }),
                    None => None,
                },
                None => None,
            },
            _ => None,
        },
        _ => None,
    }
}

/// The configuration a string holds: well-formed JSON of the right
/// shape, or nothing. Opaque: callers state results against this name
/// and never need the parser's unfolding.
#[verifier::opaque]
pub open spec fn spec_parse_config(s: Seq<char>) -> Option<WallpaperConfigV> {
    match spec_parse_json(s) {
        Some(v) => spec_config_of_json(v),
        None => None,
    }
}

fn lookup<'a>(ps: &'a Vec<(String, JsonValue)>, key: &str) -> (r: Option<&'a JsonValue>)
    ensures
        match r {
            Some(v) => spec_lookup(jps_view(ps@), key@) == Some(jv_view(*v)),
            None => spec_lookup(jps_view(ps@), key@) is None,
        },
{
    proof {
        lemma_jps_view_index(ps@);
        assert(jps_view(ps@).skip(0) =~= jps_view(ps@));
    }
    let n = ps.len();
    let mut i: usize = 0;
    loop
        invariant
            n == ps@.len(),
            i <= n,
            jps_view(ps@).len() == n,
            forall|k: int| 0 <= k < n ==> jps_view(ps@)[k] == (ps@[k].0@, jv_view(ps@[k].1)),
            spec_lookup(jps_view(ps@), key@) == spec_lookup(
                jps_view(ps@).skip(i as int),
                key@,
            ),
        decreases n - i,
    {
        if i == n {
            return None;
        }
        if str_eq(ps[i].0.as_str(), key) {
            return Some(&ps[i].1);
        }
        proof {
            assert(jps_view(ps@).skip(i as int).skip(1) =~= jps_view(ps@).skip(i + 1));
        }
        i = i + 1;
    }
}

fn monitor_entry(v: &JsonValue) -> (r: Option<MonitorConfig>)
    ensures
        match r {
            Some(m) => spec_monitor_entry(jv_view(*v)) == Some(m@),
            None => spec_monitor_entry(jv_view(*v)) is None,
        },
{
    match v {
        JsonValue::Obj(ps) => {
            let mon: &String = match lookup(ps, "monitor") {
                Some(JsonValue::Str(mon)) => mon,
                _ => {
                    return None;
                },
            };
            // Try the Primary shape first.
            let parts: Option<(WallpaperType, WallpaperSource)> = match lookup(
                ps,
                "wallpaper_type",
            ) {
                Some(JsonValue::Str(t)) => {
                    let wt = if str_eq(t.as_str(), "video") {
                        Some(WallpaperType::Video)
                    } else if str_eq(t.as_str(), "web") {
                        Some(WallpaperType::Web)
                    } else {
                        None
                    };
                    match wt {
                        Some(wt) => {
                            let src: Option<WallpaperSource> = match lookup(ps, "filepath") {
                                Some(JsonValue::Str(f)) => Some(
                                    WallpaperSource::Filepath { filepath: f.clone() },
                                ),
                                _ => match lookup(ps, "uri") {
                                    Some(JsonValue::Str(u)) => Some(
                                        WallpaperSource::Uri { uri: u.clone() },
                                    ),
                                    _ => None,
                                },
                            };
                            match src {
                                Some(src) => Some((wt, src)),
                                None => None,
                            }
                        },
                        None => None,
                    }
                },
                _ => None,
            };
            match parts {
                Some((wt, src)) => Some(
                    MonitorConfig::Primary {
                        monitor: mon.clone(),
                        wallpaper_type: wt,
                        wallpaper_source: src,
                    },
                ),
                None => {
                    // Fall back to the Clone shape.
                    match lookup(ps, "clone_source") {
                        None => Some(
                            MonitorConfig::Clone { monitor: mon.clone(), clone_source: None },
                        ),
                        Some(JsonValue::Null) => Some(
                            MonitorConfig::Clone { monitor: mon.clone(), clone_source: None },
                        ),
                        Some(JsonValue::Str(cs)) => Some(
                            MonitorConfig::Clone {
                                monitor: mon.clone(),
                                clone_source: Some(cs.clone()),
                            },
                        ),
                        Some(_) => None,
                    }
                },
            }
        },
        _ => None,
    }
}

fn config_of_json(v: &JsonValue) -> (r: Option<WallpaperConfig>)
    ensures
        match r {
            Some(c) => spec_config_of_json(jv_view(*v)) == Some(c@),
            None => spec_config_of_json(jv_view(*v)) is None,
        },
{
    match v {
        JsonValue::Obj(ps) => {
            let mode_label: &String = match lookup(ps, "mode") {
                Some(JsonValue::Str(m)) => m,
                _ => {
                    return None;
                },
            };
            let xs: &Vec<JsonValue> = match lookup(ps, "monitors") {
                Some(JsonValue::Arr(xs)) => xs,
                _ => {
                    return None;
                },
            };
            let mode = if str_eq(mode_label.as_str(), "wallpaper_per_monitor") {
                WallpaperMode::WallpaperPerMonitor
            } else if str_eq(mode_label.as_str(), "clone_single_wallpaper") {
                WallpaperMode::CloneSingleWallpaper
            } else if str_eq(mode_label.as_str(), "stretch_single_wallpaper") {
                WallpaperMode::StretchSingleWallpaper
            } else {
                return None;
            };
            let n = xs.len();
            let mut monitors: Vec<MonitorConfig> = Vec::new();
            let mut i: usize = 0;
            proof {
                lemma_jvs_view_index(xs@);
                assert(jvs_view(xs@).skip(0) =~= jvs_view(xs@));
                assert(monitors@.map_values(|m: MonitorConfig| m@) =~= Seq::<
                    MonitorConfigV,
                >::empty());
            }
            #[verifier::loop_isolation(false)]
            while i < n
                invariant
                    n == xs@.len(),
                    i <= n,
                    jvs_view(xs@).len() == n,
                    forall|k: int| 0 <= k < n ==> jvs_view(xs@)[k] == jv_view(xs@[k]),
                    spec_monitor_entries(jvs_view(xs@)) == match spec_monitor_entries(
                        jvs_view(xs@).skip(i as int),
                    ) {
                        Some(rest) => Some(monitors@.map_values(|m: MonitorConfig| m@) + rest),
                        None => None::<Seq<MonitorConfigV>>,
                    },
                decreases n - i,
            {
                let ghost prefix = monitors@.map_values(|m: MonitorConfig| m@);
                match monitor_entry(&xs[i]) {
                    Some(m) => {
                        let ghost mv = m@;
                        monitors.push(m);
                        proof {
                            assert(monitors@.map_values(|m: MonitorConfig| m@) =~= prefix + seq![
                                mv,
                            ]);
                            assert(jvs_view(xs@).skip(i as int).skip(1) =~= jvs_view(xs@).skip(
                                i + 1,
                            ));
                            match spec_monitor_entries(jvs_view(xs@).skip(i + 1)) {
                                Some(r) => {
                                    assert(prefix + (seq![mv] + r) =~= (prefix + seq![mv]) + r);
                                },
                                None => {},
                            }
                        }
                    },
                    None => {
                        proof {
                            assert(jvs_view(xs@).skip(i as int)[0] == jv_view(xs@[i as int]));
                            assert(spec_monitor_entries(jvs_view(xs@).skip(i as int)) is None);
                        }
                        return None;
                    },
                }
                i = i + 1;
            }
            proof {
                assert(jvs_view(xs@).skip(n as int) =~= Seq::<JsonValueV>::empty());
                assert(monitors@.map_values(|m: MonitorConfig| m@) + Seq::<
                    MonitorConfigV,
                >::empty() =~= monitors@.map_values(|m: MonitorConfig| m@));
            }
            let c = WallpaperConfig { mode, monitors };
            proof {
                assert(spec_config_of_json(jv_view(*v)) == Some(c@));
            }
            Some(c)
        },
        _ => None,
    }
}

/// Parses a configuration string: `Ok` exactly on well-formed JSON of
/// the configuration's shape, with the errors telling the two failures
/// apart.
pub fn parse_wallpaper_config(s: &str) -> (r: Result<WallpaperConfig, ConfigError>)
    ensures
        match r {
            Ok(c) => spec_parse_config(s@) == Some(c@),
            Err(ConfigError::MalformedJson) => spec_parse_json(s@) is None && spec_parse_config(
                s@,
            ) is None,
            Err(ConfigError::InvalidShape) => spec_parse_json(s@) is Some && spec_parse_config(
                s@,
            ) is None,
        },
{
    proof {
        reveal(spec_parse_config);
    }
    match parse_json(s) {
        None => Err(ConfigError::MalformedJson),
        Some(v) => match config_of_json(&v) {
            Some(c) => Ok(c),
            None => Err(ConfigError::InvalidShape),
        },
    }
}

} // verus!
