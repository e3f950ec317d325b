//! Greetings for the Sun and its planets, addressed by number.

use vstd::prelude::*;

verus! {

/// The bodies that can be greeted, in order of their distance from the centre
/// of the solar system: number 0 is the Sun itself.
pub open spec fn world_names() -> Seq<Seq<char>> {
    seq![
        "Sol"@,
        "Mercury"@,
        "Venus"@,
        "Earth"@,
        "Mars"@,
        "Jupiter"@,
        "Saturn"@,
        "Uranus"@,
        "Neptune"@,
    ]
}

/// The greeting owed to world number `planet`: `Hello `, its name and `!`,
/// or nothing where no world has that number.
pub open spec fn greeting(planet: u8) -> Option<Seq<char>> {
    if (planet as int) < world_names().len() {
        Some("Hello "@ + world_names()[planet as int] + "!"@)
    } else {
        None
    }
}

/// Says hello to one of Sol's worlds, chosen by number.
pub fn hello_world(planet: u8) -> (line: Option<&'static str>)
    ensures
        line is Some <==> planet <= 8,
        match line {
            Some(text) => greeting(planet) == Some(text@),
            None => greeting(planet) is None,
        },
{
    proof {
        reveal_strlit("Hello ");
        reveal_strlit("!");
        reveal_strlit("Sol");
        reveal_strlit("Mercury");
        reveal_strlit("Venus");
        reveal_strlit("Earth");
        reveal_strlit("Mars");
        reveal_strlit("Jupiter");
        reveal_strlit("Saturn");
        reveal_strlit("Uranus");
        reveal_strlit("Neptune");
        reveal_strlit("Hello Sol!");
        reveal_strlit("Hello Mercury!");
        reveal_strlit("Hello Venus!");
        reveal_strlit("Hello Earth!");
        reveal_strlit("Hello Mars!");
        reveal_strlit("Hello Jupiter!");
        reveal_strlit("Hello Saturn!");
        reveal_strlit("Hello Uranus!");
        reveal_strlit("Hello Neptune!");
    }
    let line = match planet {
        0 => Some("Hello Sol!"),
        1 => Some("Hello Mercury!"),
        2 => Some("Hello Venus!"),
        3 => Some("Hello Earth!"),
        4 => Some("Hello Mars!"),
        5 => Some("Hello Jupiter!"),
        6 => Some("Hello Saturn!"),
        7 => Some("Hello Uranus!"),
        8 => Some("Hello Neptune!"),
        _ => None,
    };
    proof {
        if let Some(text) = line {
            assert(text@ =~= "Hello "@ + world_names()[planet as int] + "!"@);
        }
    }
    line
}

} // verus!
