//! The glyph table: one constant per animation, holding its frames in
//! playback order.

use vstd::prelude::*;

verus! {

/// Frames of the `dots` animation.
pub const DOTS: [&'static str; 10] = [
    "⠋", "⠙", "⠹", "⠸", "⠼", "⠴", "⠦", "⠧", "⠇", "⠏",
];

/// Frames of the `dots2` animation.
pub const DOTS2: [&'static str; 8] = [
    "⣾", "⣽", "⣻", "⢿", "⡿", "⣟", "⣯", "⣷",
];

/// Frames of the `dots3` animation.
pub const DOTS3: [&'static str; 10] = [
    "⠋", "⠙", "⠚", "⠞", "⠖", "⠦", "⠴", "⠲", "⠳", "⠓",
];

/// Frames of the `dots4` animation.
pub const DOTS4: [&'static str; 14] = [
    "⠄", "⠆", "⠇", "⠋", "⠙", "⠸", "⠰", "⠠", "⠰", "⠸", "⠙", "⠋", "⠇", "⠆",
];

/// Frames of the `dots5` animation.
pub const DOTS5: [&'static str; 17] = [
    "⠋", "⠙", "⠚", "⠒", "⠂", "⠂", "⠒", "⠲", "⠴", "⠦", "⠖", "⠒", "⠐", "⠐", "⠒", "⠓", "⠋",
];

/// Frames of the `dots6` animation.
pub const DOTS6: [&'static str; 24] = [
    "⠁", "⠉", "⠙", "⠚", "⠒", "⠂", "⠂", "⠒", "⠲", "⠴", "⠤", "⠄", "⠄", "⠤", "⠴", "⠲", "⠒", "⠂",
    "⠂", "⠒", "⠚", "⠙", "⠉", "⠁",
];

/// Frames of the `dots7` animation.
pub const DOTS7: [&'static str; 24] = [
    "⠈", "⠉", "⠋", "⠓", "⠒", "⠐", "⠐", "⠒", "⠖", "⠦", "⠤", "⠠", "⠠", "⠤", "⠦", "⠖", "⠒", "⠐",
    "⠐", "⠒", "⠓", "⠋", "⠉", "⠈",
];

/// Frames of the `dots8` animation.
pub const DOTS8: [&'static str; 29] = [
    "⠁", "⠁", "⠉", "⠙", "⠚", "⠒", "⠂", "⠂", "⠒", "⠲", "⠴", "⠤", "⠄", "⠄", "⠤", "⠠", "⠠", "⠤",
    "⠦", "⠖", "⠒", "⠐", "⠐", "⠒", "⠓", "⠋", "⠉", "⠈", "⠈",
];

/// Frames of the `dots9` animation.
pub const DOTS9: [&'static str; 8] = [
    "⢹", "⢺", "⢼", "⣸", "⣇", "⡧", "⡗", "⡏",
];

/// Frames of the `dots10` animation.
pub const DOTS10: [&'static str; 7] = [
    "⢄", "⢂", "⢁", "⡁", "⡈", "⡐", "⡠",
];

/// Frames of the `dots11` animation.
pub const DOTS11: [&'static str; 8] = [
    "⠁", "⠂", "⠄", "⡀", "⢀", "⠠", "⠐", "⠈",
];

/// Frames of the `dots8Bit` animation.
pub const DOTS8_BIT: [&'static str; 256] = [
    "⠀", "⠁", "⠂", "⠃", "⠄", "⠅", "⠆", "⠇", "⡀", "⡁", "⡂", "⡃", "⡄", "⡅", "⡆", "⡇", "⠈", "⠉",
    "⠊", "⠋", "⠌", "⠍", "⠎", "⠏", "⡈", "⡉", "⡊", "⡋", "⡌", "⡍", "⡎", "⡏", "⠐", "⠑", "⠒", "⠓",
    "⠔", "⠕", "⠖", "⠗", "⡐", "⡑", "⡒", "⡓", "⡔", "⡕", "⡖", "⡗", "⠘", "⠙", "⠚", "⠛", "⠜", "⠝",
    "⠞", "⠟", "⡘", "⡙", "⡚", "⡛", "⡜", "⡝", "⡞", "⡟", "⠠", "⠡", "⠢", "⠣", "⠤", "⠥", "⠦", "⠧",
    "⡠", "⡡", "⡢", "⡣", "⡤", "⡥", "⡦", "⡧", "⠨", "⠩", "⠪", "⠫", "⠬", "⠭", "⠮", "⠯", "⡨", "⡩",
    "⡪", "⡫", "⡬", "⡭", "⡮", "⡯", "⠰", "⠱", "⠲", "⠳", "⠴", "⠵", "⠶", "⠷", "⡰", "⡱", "⡲", "⡳",
    "⡴", "⡵", "⡶", "⡷", "⠸", "⠹", "⠺", "⠻", "⠼", "⠽", "⠾", "⠿", "⡸", "⡹", "⡺", "⡻", "⡼", "⡽",
    "⡾", "⡿", "⢀", "⢁", "⢂", "⢃", "⢄", "⢅", "⢆", "⢇", "⣀", "⣁", "⣂", "⣃", "⣄", "⣅", "⣆", "⣇",
    "⢈", "⢉", "⢊", "⢋", "⢌", "⢍", "⢎", "⢏", "⣈", "⣉", "⣊", "⣋", "⣌", "⣍", "⣎", "⣏", "⢐", "⢑",
    "⢒", "⢓", "⢔", "⢕", "⢖", "⢗", "⣐", "⣑", "⣒", "⣓", "⣔", "⣕", "⣖", "⣗", "⢘", "⢙", "⢚", "⢛",
    "⢜", "⢝", "⢞", "⢟", "⣘", "⣙", "⣚", "⣛", "⣜", "⣝", "⣞", "⣟", "⢠", "⢡", "⢢", "⢣", "⢤", "⢥",
    "⢦", "⢧", "⣠", "⣡", "⣢", "⣣", "⣤", "⣥", "⣦", "⣧", "⢨", "⢩", "⢪", "⢫", "⢬", "⢭", "⢮", "⢯",
    "⣨", "⣩", "⣪", "⣫", "⣬", "⣭", "⣮", "⣯", "⢰", "⢱", "⢲", "⢳", "⢴", "⢵", "⢶", "⢷", "⣰", "⣱",
    "⣲", "⣳", "⣴", "⣵", "⣶", "⣷", "⢸", "⢹", "⢺", "⢻", "⢼", "⢽", "⢾", "⢿", "⣸", "⣹", "⣺", "⣻",
    "⣼", "⣽", "⣾", "⣿",
];

/// Frames of the `arrow` animation.
pub const ARROW: [&'static str; 8] = [
    "←", "↖", "↑", "↗", "→", "↘", "↓", "↙",
];

/// Frames of the `arrow2` animation.
pub const ARROW2: [&'static str; 8] = [
    "⬆️ ", "↗️ ", "➡️ ", "↘️ ", "⬇️ ", "↙️ ", "⬅️ ", "↖️ ",
];

/// Frames of the `arrow3` animation.
pub const ARROW3: [&'static str; 6] = [
    "▹▹▹▹▹", "▸▹▹▹▹", "▹▸▹▹▹", "▹▹▸▹▹", "▹▹▹▸▹", "▹▹▹▹▸",
];

/// Frames of the `bouncingBar` animation.
pub const BOUNCING_BAR: [&'static str; 15] = [
    "[    ]", "[=   ]", "[==  ]", "[=== ]", "[ ===]", "[  ==]", "[   =]", "[    ]", "[   =]",
    "[  ==]", "[ ===]", "[====]", "[=== ]", "[==  ]", "[=   ]",
];

/// Frames of the `bouncingBall` animation.
pub const BOUNCING_BALL: [&'static str; 10] = [
    "( ●    )", "(  ●   )", "(   ●  )", "(    ● )", "(     ●)", "(    ● )", "(   ●  )",
    "(  ●   )", "( ●    )", "(●     )",
];

/// Frames of the `smiley` animation.
pub const SMILEY: [&'static str; 2] = [
    "😄 ", "😝 ",
];

/// Frames of the `monkey` animation.
pub const MONKEY: [&'static str; 4] = [
    "🙈 ", "🙈 ", "🙉 ", "🙊 ",
];

/// Frames of the `hearts` animation.
pub const HEARTS: [&'static str; 5] = [
    "💛 ", "💙 ", "💜 ", "💚 ", "❤️ ",
];

/// Frames of the `clock` animation.
pub const CLOCK: [&'static str; 12] = [
    "🕛 ", "🕐 ", "🕑 ", "🕒 ", "🕓 ", "🕔 ", "🕕 ", "🕖 ", "🕗 ", "🕘 ", "🕙 ", "🕚 ",
];

/// Frames of the `earth` animation.
pub const EARTH: [&'static str; 3] = [
    "🌍 ", "🌎 ", "🌏 ",
];

/// Frames of the `material` animation.
pub const MATERIAL: [&'static str; 92] = [
    "█▁▁▁▁▁▁▁▁▁▁▁▁▁▁▁▁▁▁▁", "██▁▁▁▁▁▁▁▁▁▁▁▁▁▁▁▁▁▁", "███▁▁▁▁▁▁▁▁▁▁▁▁▁▁▁▁▁",
    "████▁▁▁▁▁▁▁▁▁▁▁▁▁▁▁▁", "██████▁▁▁▁▁▁▁▁▁▁▁▁▁▁", "██████▁▁▁▁▁▁▁▁▁▁▁▁▁▁",
    "███████▁▁▁▁▁▁▁▁▁▁▁▁▁", "████████▁▁▁▁▁▁▁▁▁▁▁▁", "█████████▁▁▁▁▁▁▁▁▁▁▁",
    "█████████▁▁▁▁▁▁▁▁▁▁▁", "██████████▁▁▁▁▁▁▁▁▁▁", "███████████▁▁▁▁▁▁▁▁▁",
    "█████████████▁▁▁▁▁▁▁", "██████████████▁▁▁▁▁▁", "██████████████▁▁▁▁▁▁",
    "▁██████████████▁▁▁▁▁", "▁██████████████▁▁▁▁▁", "▁██████████████▁▁▁▁▁",
    "▁▁██████████████▁▁▁▁", "▁▁▁██████████████▁▁▁", "▁▁▁▁█████████████▁▁▁",
    "▁▁▁▁██████████████▁▁", "▁▁▁▁██████████████▁▁", "▁▁▁▁▁██████████████▁",
    "▁▁▁▁▁██████████████▁", "▁▁▁▁▁██████████████▁", "▁▁▁▁▁▁██████████████",
    "▁▁▁▁▁▁██████████████", "▁▁▁▁▁▁▁█████████████", "▁▁▁▁▁▁▁█████████████",
    "▁▁▁▁▁▁▁▁████████████", "▁▁▁▁▁▁▁▁████████████", "▁▁▁▁▁▁▁▁▁███████████",
    "▁▁▁▁▁▁▁▁▁███████████", "▁▁▁▁▁▁▁▁▁▁██████████", "▁▁▁▁▁▁▁▁▁▁██████████",
    "▁▁▁▁▁▁▁▁▁▁▁▁████████", "▁▁▁▁▁▁▁▁▁▁▁▁▁███████", "▁▁▁▁▁▁▁▁▁▁▁▁▁▁██████",
    "▁▁▁▁▁▁▁▁▁▁▁▁▁▁▁█████", "▁▁▁▁▁▁▁▁▁▁▁▁▁▁▁█████", "█▁▁▁▁▁▁▁▁▁▁▁▁▁▁▁████",
    "██▁▁▁▁▁▁▁▁▁▁▁▁▁▁▁███", "██▁▁▁▁▁▁▁▁▁▁▁▁▁▁▁███", "███▁▁▁▁▁▁▁▁▁▁▁▁▁▁███",
    "████▁▁▁▁▁▁▁▁▁▁▁▁▁▁██", "█████▁▁▁▁▁▁▁▁▁▁▁▁▁▁█", "█████▁▁▁▁▁▁▁▁▁▁▁▁▁▁█",
    "██████▁▁▁▁▁▁▁▁▁▁▁▁▁█", "████████▁▁▁▁▁▁▁▁▁▁▁▁", "█████████▁▁▁▁▁▁▁▁▁▁▁",
    "█████████▁▁▁▁▁▁▁▁▁▁▁", "█████████▁▁▁▁▁▁▁▁▁▁▁", "█████████▁▁▁▁▁▁▁▁▁▁▁",
    "███████████▁▁▁▁▁▁▁▁▁", "████████████▁▁▁▁▁▁▁▁", "████████████▁▁▁▁▁▁▁▁",
    "██████████████▁▁▁▁▁▁", "██████████████▁▁▁▁▁▁", "▁██████████████▁▁▁▁▁",
    "▁██████████████▁▁▁▁▁", "▁▁▁█████████████▁▁▁▁", "▁▁▁▁▁████████████▁▁▁",
    "▁▁▁▁▁████████████▁▁▁", "▁▁▁▁▁▁███████████▁▁▁", "▁▁▁▁▁▁▁▁█████████▁▁▁",
    "▁▁▁▁▁▁▁▁█████████▁▁▁", "▁▁▁▁▁▁▁▁▁█████████▁▁", "▁▁▁▁▁▁▁▁▁█████████▁▁",
    "▁▁▁▁▁▁▁▁▁▁█████████▁", "▁▁▁▁▁▁▁▁▁▁▁████████▁", "▁▁▁▁▁▁▁▁▁▁▁████████▁",
    "▁▁▁▁▁▁▁▁▁▁▁▁███████▁", "▁▁▁▁▁▁▁▁▁▁▁▁███████▁", "▁▁▁▁▁▁▁▁▁▁▁▁▁███████",
    "▁▁▁▁▁▁▁▁▁▁▁▁▁███████", "▁▁▁▁▁▁▁▁▁▁▁▁▁▁▁█████", "▁▁▁▁▁▁▁▁▁▁▁▁▁▁▁▁████",
    "▁▁▁▁▁▁▁▁▁▁▁▁▁▁▁▁████", "▁▁▁▁▁▁▁▁▁▁▁▁▁▁▁▁████", "▁▁▁▁▁▁▁▁▁▁▁▁▁▁▁▁▁███",
    "▁▁▁▁▁▁▁▁▁▁▁▁▁▁▁▁▁███", "▁▁▁▁▁▁▁▁▁▁▁▁▁▁▁▁▁▁██", "▁▁▁▁▁▁▁▁▁▁▁▁▁▁▁▁▁▁██",
    "▁▁▁▁▁▁▁▁▁▁▁▁▁▁▁▁▁▁██", "▁▁▁▁▁▁▁▁▁▁▁▁▁▁▁▁▁▁▁█", "▁▁▁▁▁▁▁▁▁▁▁▁▁▁▁▁▁▁▁█",
    "▁▁▁▁▁▁▁▁▁▁▁▁▁▁▁▁▁▁▁█", "▁▁▁▁▁▁▁▁▁▁▁▁▁▁▁▁▁▁▁▁", "▁▁▁▁▁▁▁▁▁▁▁▁▁▁▁▁▁▁▁▁",
    "▁▁▁▁▁▁▁▁▁▁▁▁▁▁▁▁▁▁▁▁", "▁▁▁▁▁▁▁▁▁▁▁▁▁▁▁▁▁▁▁▁",
];

/// Frames of the `moon` animation.
pub const MOON: [&'static str; 8] = [
    "🌑 ", "🌒 ", "🌓 ", "🌔 ", "🌕 ", "🌖 ", "🌗 ", "🌘 ",
];

/// Frames of the `runner` animation.
pub const RUNNER: [&'static str; 2] = [
    "🚶 ", "🏃 ",
];

/// Frames of the `pong` animation.
pub const PONG: [&'static str; 30] = [
    "▐⠂       ▌", "▐⠈       ▌", "▐ ⠂      ▌", "▐ ⠠      ▌", "▐  ⡀     ▌", "▐  ⠠     ▌",
    "▐   ⠂    ▌", "▐   ⠈    ▌", "▐    ⠂   ▌", "▐    ⠠   ▌", "▐     ⡀  ▌", "▐     ⠠  ▌",
    "▐      ⠂ ▌", "▐      ⠈ ▌", "▐       ⠂▌", "▐       ⠠▌", "▐       ⡀▌", "▐      ⠠ ▌",
    "▐      ⠂ ▌", "▐     ⠈  ▌", "▐     ⠂  ▌", "▐    ⠠   ▌", "▐    ⡀   ▌", "▐   ⠠    ▌",
    "▐   ⠂    ▌", "▐  ⠈     ▌", "▐  ⠂     ▌", "▐ ⠠      ▌", "▐ ⡀      ▌", "▐⠠       ▌",
];

/// Frames of the `shark` animation.
pub const SHARK: [&'static str; 26] = [
    "▐|____________▌", "▐_|___________▌", "▐__|__________▌", "▐___|_________▌",
    "▐____|________▌", "▐_____|_______▌", "▐______|______▌", "▐_______|_____▌",
    "▐________|____▌", "▐_________|___▌", "▐__________|__▌", "▐___________|_▌",
    "▐____________|▌", "▐____________/|▌", "▐___________/|_▌", "▐__________/|__▌",
    "▐_________/|___▌", "▐________/|____▌", "▐_______/|_____▌", "▐______/|______▌",
    "▐_____/|_______▌", "▐____/|________▌", "▐___/|_________▌", "▐__/|__________▌",
    "▐_/|___________▌", "▐/|____________▌",
];

/// Frames of the `dqpb` animation.
pub const DQPB: [&'static str; 4] = [
    "d", "q", "p", "b",
];

/// Frames of the `weather` animation.
pub const WEATHER: [&'static str; 23] = [
    "☀️ ", "☀️ ", "☀️ ", "🌤  ", "⛅️ ", "🌥  ", "☁️ ", "🌧  ", "🌨  ", "🌧  ", "🌨  ", "🌧  ", "🌨  ",
    "⛈  ", "🌨  ", "🌧  ", "🌨  ", "☁️ ", "🌥  ", "⛅️ ", "🌤  ", "☀️ ", "☀️ ",
];

/// Frames of the `christmas` animation.
pub const CHRISTMAS: [&'static str; 2] = [
    "🌲", "🎄",
];

/// Frames of the `grenade` animation.
pub const GRENADE: [&'static str; 14] = [
    "،    ", "′    ", " ´   ", " ‾   ", "  ⸌  ", "  ⸊  ", "  |  ", "  ⁎  ", "  ⁕  ", " ෴ ",
    "  ⁓  ", "     ", "     ", "     ",
];

/// Frames of the `point` animation.
pub const POINT: [&'static str; 5] = [
    "∙∙∙", "●∙∙", "∙●∙", "∙∙●", "∙∙∙",
];

/// Frames of the `layer` animation.
pub const LAYER: [&'static str; 3] = [
    "-", "=", "≡",
];

/// Frames of the `betaWave` animation.
pub const BETA_WAVE: [&'static str; 7] = [
    "ρββββββ", "βρβββββ", "ββρββββ", "βββρβββ", "ββββρββ", "βββββρβ", "ββββββρ",
];

/// Frames of the `fingerDance` animation.
pub const FINGER_DANCE: [&'static str; 6] = [
    "🤘 ", "🤟 ", "🖖 ", "✋ ", "🤚 ", "👆 ",
];

/// Frames of the `fistBump` animation.
pub const FIST_BUMP: [&'static str; 7] = [
    "🤜　　　　🤛 ", "🤜　　　　🤛 ", "🤜　　　　🤛 ", "　🤜　　🤛　 ", "　　🤜🤛　　 ", "　🤜✨🤛　　 ", "🤜　✨　🤛　 ",
];

/// Frames of the `soccerHeader` animation.
pub const SOCCER_HEADER: [&'static str; 12] = [
    " 🧑⚽️       🧑 ", "🧑  ⚽️      🧑 ", "🧑   ⚽️     🧑 ", "🧑    ⚽️    🧑 ", "🧑     ⚽️   🧑 ",
    "🧑      ⚽️  🧑 ", "🧑       ⚽️🧑  ", "🧑      ⚽️  🧑 ", "🧑     ⚽️   🧑 ", "🧑    ⚽️    🧑 ",
    "🧑   ⚽️     🧑 ", "🧑  ⚽️      🧑 ",
];

/// Frames of the `mindblown` animation.
pub const MINDBLOWN: [&'static str; 14] = [
    "😐 ", "😐 ", "😮 ", "😮 ", "😦 ", "😦 ", "😧 ", "😧 ", "🤯 ", "💥 ", "✨ ", "　 ", "　 ", "　 ",
];

/// Frames of the `speaker` animation.
pub const SPEAKER: [&'static str; 4] = [
    "🔈 ", "🔉 ", "🔊 ", "🔉 ",
];

/// Frames of the `orangePulse` animation.
pub const ORANGE_PULSE: [&'static str; 5] = [
    "🔸 ", "🔶 ", "🟠 ", "🟠 ", "🔶 ",
];

/// Frames of the `bluePulse` animation.
pub const BLUE_PULSE: [&'static str; 5] = [
    "🔹 ", "🔷 ", "🔵 ", "🔵 ", "🔷 ",
];

/// Frames of the `orangeBluePulse` animation.
pub const ORANGE_BLUE_PULSE: [&'static str; 8] = [
    "🔸 ", "🔶 ", "🟠 ", "🟠 ", "🔶 ", "🔹 ", "🔷 ", "🔷 ",
];

/// Frames of the `timeTravel` animation.
pub const TIME_TRAVEL: [&'static str; 12] = [
    "🕛 ", "🕚 ", "🕙 ", "🕘 ", "🕗 ", "🕖 ", "🕕 ", "🕔 ", "🕓 ", "🕒 ", "🕑 ", "🕐 ",
];

/// Frames of the `aesthetic` animation.
pub const AESTHETIC: [&'static str; 8] = [
    "▰▱▱▱▱▱▱", "▰▰▱▱▱▱▱", "▰▰▰▱▱▱▱", "▰▰▰▰▱▱▱", "▰▰▰▰▰▱▱", "▰▰▰▰▰▰▱", "▰▰▰▰▰▰▰", "▰▱▱▱▱▱▱",
];

/// Frames of the `pipe` animation.
pub const PIPE: [&'static str; 8] = [
    "┤", "┘", "┴", "└", "├", "┌", "┬", "┐",
];

/// Frames of the `star` animation.
pub const STAR: [&'static str; 6] = [
    "✶", "✸", "✹", "✺", "✹", "✷",
];

/// Frames of the `star2` animation.
pub const STAR2: [&'static str; 3] = [
    "+", "x", "*",
];

/// Frames of the `flip` animation.
pub const FLIP: [&'static str; 12] = [
    "_", "_", "_", "-", "`", "`", "'", "´", "-", "_", "_", "_",
];

/// Frames of the `hamburger` animation.
pub const HAMBURGER: [&'static str; 3] = [
    "☱", "☲", "☴",
];

/// Frames of the `growVertical` animation.
pub const GROW_VERTICAL: [&'static str; 10] = [
    "▁", "▃", "▄", "▅", "▆", "▇", "▆", "▅", "▄", "▃",
];

/// Frames of the `growHorizontal` animation.
pub const GROW_HORIZONTAL: [&'static str; 12] = [
    "▏", "▎", "▍", "▌", "▋", "▊", "▉", "▊", "▋", "▌", "▍", "▎",
];

/// Frames of the `balloon` animation.
pub const BALLOON: [&'static str; 14] = [
    ".", "i", "n", "t", "o", "(", ")", " ", ".", "o", "O", "@", "*", " ",
];

/// Frames of the `balloon2` animation.
pub const BALLOON2: [&'static str; 7] = [
    ".", "o", "O", "°", "O", "o", ".",
];

/// Frames of the `noise` animation.
pub const NOISE: [&'static str; 3] = [
    "▓", "▒", "░",
];

/// Frames of the `bounce` animation.
pub const BOUNCE: [&'static str; 4] = [
    "⠁", "⠂", "⠄", "⠂",
];

/// Frames of the `boxBounce` animation.
pub const BOX_BOUNCE: [&'static str; 4] = [
    "▖", "▘", "▝", "▗",
];

/// Frames of the `boxBounce2` animation.
pub const BOX_BOUNCE2: [&'static str; 4] = [
    "▌", "▀", "▐", "▄",
];

/// Frames of the `triangle` animation.
pub const TRIANGLE: [&'static str; 4] = [
    "◢", "◣", "◤", "◥",
];

/// Frames of the `arc` animation.
pub const ARC: [&'static str; 6] = [
    "◜", "◠", "◝", "◞", "◡", "◟",
];

/// Frames of the `circle` animation.
pub const CIRCLE: [&'static str; 3] = [
    "◡", "⊙", "◠",
];

/// Frames of the `squareCorners` animation.
pub const SQUARE_CORNERS: [&'static str; 4] = [
    "◰", "◳", "◲", "◱",
];

/// Frames of the `circleQuaters` animation.
pub const CIRCLE_QUATERS: [&'static str; 4] = [
    "◴", "◷", "◶", "◵",
];

/// Frames of the `circleHalves` animation.
pub const CIRCLE_HALVES: [&'static str; 4] = [
    "◐", "◓", "◑", "◒",
];

/// Frames of the `squish` animation.
pub const SQUISH: [&'static str; 2] = [
    "╫", "╪",
];

/// Frames of the `toggle` animation.
pub const TOGGLE: [&'static str; 2] = [
    "⊶", "⊷",
];

/// Frames of the `toggle2` animation.
pub const TOGGLE2: [&'static str; 2] = [
    "▫", "▪",
];

/// Frames of the `toggle3` animation.
pub const TOGGLE3: [&'static str; 2] = [
    "□", "■",
];

/// Frames of the `toggle4` animation.
pub const TOGGLE4: [&'static str; 4] = [
    "■", "□", "▪", "▫",
];

/// Frames of the `toggle5` animation.
pub const TOGGLE5: [&'static str; 2] = [
    "▮", "▯",
];

/// Frames of the `toggle6` animation.
pub const TOGGLE6: [&'static str; 2] = [
    "ဝ", "၀",
];

/// Frames of the `toggle7` animation.
pub const TOGGLE7: [&'static str; 2] = [
    "⦾", "⦿",
];

/// Frames of the `toggle8` animation.
pub const TOGGLE8: [&'static str; 2] = [
    "◍", "◌",
];

/// Frames of the `toggle9` animation.
pub const TOGGLE9: [&'static str; 2] = [
    "◉", "◎",
];

/// Frames of the `toggle10` animation.
pub const TOGGLE10: [&'static str; 3] = [
    "㊂", "㊀", "㊁",
];

/// Frames of the `toggle11` animation.
pub const TOGGLE11: [&'static str; 2] = [
    "⧇", "⧆",
];

/// Frames of the `toggle12` animation.
pub const TOGGLE12: [&'static str; 2] = [
    "☗", "☖",
];

/// Frames of the `toggle13` animation.
pub const TOGGLE13: [&'static str; 3] = [
    "=", "*", "-",
];

/// Frames of the `line` animation.
pub const LINE: [&'static str; 4] = [
    "-", "", "|", "/",
];

/// Frames of the `line2` animation.
pub const LINE2: [&'static str; 6] = [
    "⠂", "-", "–", "—", "–", "-",
];

/// Frames of the `simpleDots` animation.
pub const SIMPLE_DOTS: [&'static str; 4] = [
    ".  ", ".. ", "...", "   ",
];

/// Frames of the `simpleDotsScrolling` animation.
pub const SIMPLE_DOTS_SCROLLING: [&'static str; 6] = [
    ".  ", ".. ", "...", " ..", "  .", "   ",
];

} // verus!
