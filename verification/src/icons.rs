//! The icon tables the bar renders with: three named mappings from icon
//! name to glyph, and the lookup the configuration layer goes through.

use vstd::prelude::*;
use vstd::hash_map::StringHashMap;
use crate::strutil::str_eq;

verus! {

/// The glyphs of a name-to-glyph table, as character sequences keyed by
/// the icon name's characters.
pub open spec fn view_of(m: Map<Seq<char>, String>) -> Map<Seq<char>, Seq<char>> {
    Map::new(|k: Seq<char>| m.dom().contains(k), |k: Seq<char>| m[k]@)
}

proof fn lemma_view_of_empty()
    ensures
        view_of(Map::<Seq<char>, String>::empty()) == Map::<Seq<char>, Seq<char>>::empty(),
{
    assert(view_of(Map::<Seq<char>, String>::empty()) =~= Map::<Seq<char>, Seq<char>>::empty());
}

proof fn lemma_view_of_insert(m: Map<Seq<char>, String>, k: Seq<char>, v: String)
    ensures
        view_of(m.insert(k, v)) == view_of(m).insert(k, v@),
{
    assert(view_of(m.insert(k, v)) =~= view_of(m).insert(k, v@));
}

/// Adds the glyph `v` under the icon name `k`.
fn put(m: &mut StringHashMap<String>, k: &str, v: &str)
    ensures
        view_of(final(m)@) == view_of(old(m)@).insert(k@, v@),
{
    let key: String = k.to_owned();
    let glyph: String = v.to_owned();
    proof {
        lemma_view_of_insert(m@, key@, glyph);
    }
    m.insert(key, glyph);
}

/// The text-only icon table: plain labels, no icon font needed.
pub open spec fn none_table() -> Map<Seq<char>, Seq<char>> {
    Map::<Seq<char>, Seq<char>>::empty()
        .insert(""@, ""@)
        .insert("time"@, " "@)
        .insert("music"@, " "@)
        .insert("music_play"@, ">"@)
        .insert("music_pause"@, "||"@)
        .insert("music_next"@, " > "@)
        .insert("music_prev"@, " < "@)
        .insert("cogs"@, " LOAD "@)
        .insert("memory_mem"@, " MEM "@)
        .insert("memory_swap"@, " SWAP "@)
        .insert("cpu"@, " CPU "@)
        .insert("bat"@, " BAT "@)
        .insert("bat_full"@, " FULL "@)
        .insert("bat_charging"@, " CHG "@)
        .insert("bat_discharging"@, " DCG "@)
        .insert("update"@, " UPD "@)
        .insert("toggle_off"@, " OFF "@)
        .insert("toggle_on"@, " ON "@)
        .insert("volume_full"@, " VOL "@)
        .insert("volume_half"@, " VOL "@)
        .insert("volume_empty"@, " VOL "@)
        .insert("volume_muted"@, "MUTED"@)
        .insert("thermometer"@, " TEMP "@)
        .insert("xrandr"@, " SCREEN "@)
        .insert("net_up"@, " UP "@)
        .insert("net_down"@, " DOWN "@)
        .insert("net_wireless"@, " WLAN "@)
        .insert("net_wired"@, " ETH "@)
        .insert("ping"@, " PING "@)
        .insert("backlight_empty"@, " BRIGHT "@)
        .insert("backlight_partial1"@, " BRIGHT "@)
        .insert("backlight_partial2"@, " BRIGHT "@)
        .insert("backlight_partial3"@, " BRIGHT "@)
        .insert("backlight_full"@, " BRIGHT "@)
        .insert("weather_sun"@, " SUNNY "@)
        .insert("weather_snow"@, " SNOW "@)
        .insert("weather_thunder"@, " STORM "@)
        .insert("weather_clouds"@, " CLOUDY "@)
        .insert("weather_rain"@, " RAIN "@)
        .insert("weather_default"@, " WEATHER "@)
        .insert("uptime"@, " UP "@)
        .insert("gpu"@, " GPU "@)
        .insert("mail"@, " "@)
}

fn build_none() -> (m: StringHashMap<String>)
    ensures
        view_of(m@) == none_table(),
{
    let mut m = StringHashMap::<String>::new();
    proof {
        lemma_view_of_empty();
    }
    put(&mut m, "", "");
    put(&mut m, "time", " ");
    put(&mut m, "music", " ");
    put(&mut m, "music_play", ">");
    put(&mut m, "music_pause", "||");
    put(&mut m, "music_next", " > ");
    put(&mut m, "music_prev", " < ");
    put(&mut m, "cogs", " LOAD ");
    put(&mut m, "memory_mem", " MEM ");
    put(&mut m, "memory_swap", " SWAP ");
    put(&mut m, "cpu", " CPU ");
    put(&mut m, "bat", " BAT ");
    put(&mut m, "bat_full", " FULL ");
    put(&mut m, "bat_charging", " CHG ");
    put(&mut m, "bat_discharging", " DCG ");
    put(&mut m, "update", " UPD ");
    put(&mut m, "toggle_off", " OFF ");
    put(&mut m, "toggle_on", " ON ");
    put(&mut m, "volume_full", " VOL ");
    put(&mut m, "volume_half", " VOL ");
    put(&mut m, "volume_empty", " VOL ");
    put(&mut m, "volume_muted", "MUTED");
    put(&mut m, "thermometer", " TEMP ");
    put(&mut m, "xrandr", " SCREEN ");
    put(&mut m, "net_up", " UP ");
    put(&mut m, "net_down", " DOWN ");
    put(&mut m, "net_wireless", " WLAN ");
    put(&mut m, "net_wired", " ETH ");
    put(&mut m, "ping", " PING ");
    put(&mut m, "backlight_empty", " BRIGHT ");
    put(&mut m, "backlight_partial1", " BRIGHT ");
    put(&mut m, "backlight_partial2", " BRIGHT ");
    put(&mut m, "backlight_partial3", " BRIGHT ");
    put(&mut m, "backlight_full", " BRIGHT ");
    put(&mut m, "weather_sun", " SUNNY ");
    put(&mut m, "weather_snow", " SNOW ");
    put(&mut m, "weather_thunder", " STORM ");
    put(&mut m, "weather_clouds", " CLOUDY ");
    put(&mut m, "weather_rain", " RAIN ");
    put(&mut m, "weather_default", " WEATHER ");
    put(&mut m, "uptime", " UP ");
    put(&mut m, "gpu", " GPU ");
    put(&mut m, "mail", " ");
    m
}

/// The icon table for the Font Awesome icon font.
pub open spec fn awesome_table() -> Map<Seq<char>, Seq<char>> {
    Map::<Seq<char>, Seq<char>>::empty()
        .insert(""@, ""@)
        .insert("time"@, " \u{f017} "@)
        .insert("music"@, " \u{f001} "@)
        .insert("music_play"@, "  \u{f04b}  "@)
        .insert("music_pause"@, "  \u{f04c}  "@)
        .insert("music_next"@, " \u{f061} "@)
        .insert("music_prev"@, " \u{f060} "@)
        .insert("cogs"@, " \u{f085} "@)
        .insert("memory_mem"@, " \u{f2db} "@)
        .insert("memory_swap"@, " \u{f0a0} "@)
        .insert("cpu"@, " \u{f0e4} "@)
        .insert("bat"@, " \u{f242} "@)
        .insert("bat_full"@, " \u{f240} "@)
        .insert("bat_charging"@, " \u{f1e6} "@)
        .insert("bat_discharging"@, " \u{f242} "@)
        .insert("update"@, " \u{f062} "@)
        .insert("toggle_off"@, " \u{f204} "@)
        .insert("toggle_on"@, " \u{f205} "@)
        .insert("volume_full"@, " \u{f028} "@)
        .insert("volume_half"@, " \u{f027} "@)
        .insert("volume_empty"@, " \u{f026} "@)
        .insert("volume_muted"@, "\u{f00d}"@)
        .insert("thermometer"@, " \u{f2c8} "@)
        .insert("xrandr"@, " \u{f26c} "@)
        .insert("net_up"@, " \u{2b06} "@)
        .insert("net_down"@, " \u{2b07} "@)
        .insert("net_wireless"@, " \u{f1eb} "@)
        .insert("net_wired"@, " \u{f0ac} "@)
        .insert("ping"@, " \u{21ba} "@)
        .insert("backlight_empty"@, " \u{1f315} "@)
        .insert("backlight_partial1"@, " \u{1f314} "@)
        .insert("backlight_partial2"@, " \u{1f313} "@)
        .insert("backlight_partial3"@, " \u{1f312} "@)
        .insert("backlight_full"@, " \u{1f311} "@)
        .insert("weather_sun"@, " \u{f185} "@)
        .insert("weather_snow"@, " \u{f2dc} "@)
        .insert("weather_thunder"@, " \u{f0e7} "@)
        .insert("weather_clouds"@, " \u{f0c2} "@)
        .insert("weather_rain"@, " \u{f043} "@)
        .insert("weather_default"@, " \u{f0c2} "@)
        .insert("uptime"@, " \u{f017} "@)
        .insert("gpu"@, " \u{f26c} "@)
        .insert("mail"@, " \u{f0e0} "@)
        .insert("moon"@, " \u{f186}"@)
        .insert("sun"@, " \u{f185} "@)
        .insert("horizontal"@, " \u{f141} "@)
        .insert("vertical"@, " \u{f142} "@)
}

fn build_awesome() -> (m: StringHashMap<String>)
    ensures
        view_of(m@) == awesome_table(),
{
    let mut m = StringHashMap::<String>::new();
    proof {
        lemma_view_of_empty();
    }
    put(&mut m, "", "");
    put(&mut m, "time", " \u{f017} ");
    put(&mut m, "music", " \u{f001} ");
    put(&mut m, "music_play", "  \u{f04b}  ");
    put(&mut m, "music_pause", "  \u{f04c}  ");
    put(&mut m, "music_next", " \u{f061} ");
    put(&mut m, "music_prev", " \u{f060} ");
    put(&mut m, "cogs", " \u{f085} ");
    put(&mut m, "memory_mem", " \u{f2db} ");
    put(&mut m, "memory_swap", " \u{f0a0} ");
    put(&mut m, "cpu", " \u{f0e4} ");
    put(&mut m, "bat", " \u{f242} ");
    put(&mut m, "bat_full", " \u{f240} ");
    put(&mut m, "bat_charging", " \u{f1e6} ");
    put(&mut m, "bat_discharging", " \u{f242} ");
    put(&mut m, "update", " \u{f062} ");
    put(&mut m, "toggle_off", " \u{f204} ");
    put(&mut m, "toggle_on", " \u{f205} ");
    put(&mut m, "volume_full", " \u{f028} ");
    put(&mut m, "volume_half", " \u{f027} ");
    put(&mut m, "volume_empty", " \u{f026} ");
    put(&mut m, "volume_muted", "\u{f00d}");
    put(&mut m, "thermometer", " \u{f2c8} ");
    put(&mut m, "xrandr", " \u{f26c} ");
    put(&mut m, "net_up", " \u{2b06} ");
    put(&mut m, "net_down", " \u{2b07} ");
    put(&mut m, "net_wireless", " \u{f1eb} ");
    put(&mut m, "net_wired", " \u{f0ac} ");
    put(&mut m, "ping", " \u{21ba} ");
    put(&mut m, "backlight_empty", " \u{1f315} ");
    put(&mut m, "backlight_partial1", " \u{1f314} ");
    put(&mut m, "backlight_partial2", " \u{1f313} ");
    put(&mut m, "backlight_partial3", " \u{1f312} ");
    put(&mut m, "backlight_full", " \u{1f311} ");
    put(&mut m, "weather_sun", " \u{f185} ");
    put(&mut m, "weather_snow", " \u{f2dc} ");
    put(&mut m, "weather_thunder", " \u{f0e7} ");
    put(&mut m, "weather_clouds", " \u{f0c2} ");
    put(&mut m, "weather_rain", " \u{f043} ");
    put(&mut m, "weather_default", " \u{f0c2} ");
    put(&mut m, "uptime", " \u{f017} ");
    put(&mut m, "gpu", " \u{f26c} ");
    put(&mut m, "mail", " \u{f0e0} ");
    put(&mut m, "moon", " \u{f186}");
    put(&mut m, "sun", " \u{f185} ");
    put(&mut m, "horizontal", " \u{f141} ");
    put(&mut m, "vertical", " \u{f142} ");
    m
}

/// The icon table for the Material Design icon font.
pub open spec fn material_table() -> Map<Seq<char>, Seq<char>> {
    Map::<Seq<char>, Seq<char>>::empty()
        .insert(""@, ""@)
        .insert("time"@, " \u{e192} "@)
        .insert("music"@, " \u{e405} "@)
        .insert("music_play"@, "  \u{e037}  "@)
        .insert("music_pause"@, "  \u{e034}  "@)
        .insert("music_next"@, " \u{e044} "@)
        .insert("music_prev"@, " \u{e045} "@)
        .insert("cogs"@, " \u{e8b8} "@)
        .insert("memory_mem"@, " \u{e322} "@)
        .insert("memory_swap"@, " \u{e8d4} "@)
        .insert("cpu"@, " \u{e640} "@)
        .insert("bat"@, " \u{e1a5} "@)
        .insert("bat_full"@, " \u{e1a4} "@)
        .insert("bat_charging"@, " \u{e1a3} "@)
        .insert("bat_discharging"@, " \u{e19c} "@)
        .insert("update"@, " \u{e8d7} "@)
        .insert("toggle_off"@, " \u{e836} "@)
        .insert("toggle_on"@, " \u{e837} "@)
        .insert("volume_full"@, " \u{e050} "@)
        .insert("volume_half"@, " \u{e04d} "@)
        .insert("volume_empty"@, " \u{e04e} "@)
        .insert("volume_muted"@, "\u{e04f}"@)
        .insert("thermometer"@, " \u{f2c8} "@)
        .insert("xrandr"@, " \u{e31e} "@)
        .insert("uptime"@, " \u{e192} "@)
        .insert("gpu"@, " \u{e333} "@)
        .insert("mail"@, " \u{e0be} "@)
}

fn build_material() -> (m: StringHashMap<String>)
    ensures
        view_of(m@) == material_table(),
{
    let mut m = StringHashMap::<String>::new();
    proof {
        lemma_view_of_empty();
    }
    put(&mut m, "", "");
    put(&mut m, "time", " \u{e192} ");
    put(&mut m, "music", " \u{e405} ");
    put(&mut m, "music_play", "  \u{e037}  ");
    put(&mut m, "music_pause", "  \u{e034}  ");
    put(&mut m, "music_next", " \u{e044} ");
    put(&mut m, "music_prev", " \u{e045} ");
    put(&mut m, "cogs", " \u{e8b8} ");
    put(&mut m, "memory_mem", " \u{e322} ");
    put(&mut m, "memory_swap", " \u{e8d4} ");
    put(&mut m, "cpu", " \u{e640} ");
    put(&mut m, "bat", " \u{e1a5} ");
    put(&mut m, "bat_full", " \u{e1a4} ");
    put(&mut m, "bat_charging", " \u{e1a3} ");
    put(&mut m, "bat_discharging", " \u{e19c} ");
    put(&mut m, "update", " \u{e8d7} ");
    put(&mut m, "toggle_off", " \u{e836} ");
    put(&mut m, "toggle_on", " \u{e837} ");
    put(&mut m, "volume_full", " \u{e050} ");
    put(&mut m, "volume_half", " \u{e04d} ");
    put(&mut m, "volume_empty", " \u{e04e} ");
    put(&mut m, "volume_muted", "\u{e04f}");
    put(&mut m, "thermometer", " \u{f2c8} ");
    put(&mut m, "xrandr", " \u{e31e} ");
    put(&mut m, "uptime", " \u{e192} ");
    put(&mut m, "gpu", " \u{e333} ");
    put(&mut m, "mail", " \u{e0be} ");
    m
}

/// The icon table registered under `name`: `"material"`, `"awesome"` and
/// `"none"` are the known tables, and any other name has none.
pub fn get_icons(name: &str) -> (r: Option<StringHashMap<String>>)
    ensures
        name@ == "material"@ ==> r is Some && view_of(r->Some_0@) == material_table(),
        name@ == "awesome"@ ==> r is Some && view_of(r->Some_0@) == awesome_table(),
        name@ == "none"@ ==> r is Some && view_of(r->Some_0@) == none_table(),
        name@ != "material"@ && name@ != "awesome"@ && name@ != "none"@ ==> r is None,
{
    proof {
        reveal_strlit("material");
        reveal_strlit("awesome");
        reveal_strlit("none");
        assert("material"@.len() == 8 && "awesome"@.len() == 7 && "none"@.len() == 4);
        assert("material"@ != "awesome"@ && "material"@ != "none"@ && "awesome"@ != "none"@);
    }
    if str_eq(name, "material") {
        Some(build_material())
    } else if str_eq(name, "awesome") {
        Some(build_awesome())
    } else if str_eq(name, "none") {
        Some(build_none())
    } else {
        None
    }
}

/// The icon table used when the configuration names none: the text-only
/// table.
pub fn default() -> (r: StringHashMap<String>)
    ensures
        view_of(r@) == none_table(),
{
    build_none()
}

} // verus!
