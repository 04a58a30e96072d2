//! Stack sizes of the items of the base game, looked up by their American
//! English names and by the short names that players commonly use.

use vstd::prelude::*;

use crate::text::same_text;

verus! {

/// The stack size that the table gives for a lowercase item name, or `None`
/// for a name that it does not hold.
pub open spec fn stack_size_of(name: Seq<char>) -> Option<u32> {
    // Logistics
    if name == "stone brick"@ {
        Some(100)
    } else if name == "concrete"@ {
        Some(100)
    } else if name == "hazard concrete"@ {
        Some(100)
    } else if name == "refined concrete"@ {
        Some(100)
    } else if name == "refined hazard concrete"@ {
        Some(100)
    } else if name == "landfill"@ {
        Some(100)
    // Production
    } else if name == "repair pack"@ {
        Some(100)
    } else if name == "speed module"@ {
        Some(50)
    } else if name == "speed module 2"@ {
        Some(50)
    } else if name == "speed module 3"@ {
        Some(50)
    } else if name == "efficiency module"@ {
        Some(50)
    } else if name == "efficiency module 2"@ {
        Some(50)
    } else if name == "efficiency module 3"@ {
        Some(50)
    } else if name == "productivity module"@ {
        Some(50)
    } else if name == "productivity module 2"@ {
        Some(50)
    } else if name == "productivity module 3"@ {
        Some(50)
    } else if name == "satellite"@ {
        Some(1)
    // Intermediate products
    } else if name == "wood"@ {
        Some(100)
    } else if name == "coal"@ {
        Some(50)
    } else if name == "stone"@ {
        Some(50)
    } else if name == "iron ore"@ {
        Some(50)
    } else if name == "copper ore"@ {
        Some(50)
    } else if name == "uranium ore"@ {
        Some(50)
    } else if name == "raw fish"@ {
        Some(100)
    } else if name == "iron plate"@ {
        Some(100)
    } else if name == "copper plate"@ {
        Some(100)
    } else if name == "solid fuel"@ {
        Some(50)
    } else if name == "steel plate"@ {
        Some(100)
    } else if name == "plastic bar"@ {
        Some(100)
    } else if name == "sulfur"@ {
        Some(50)
    } else if name == "battery"@ {
        Some(200)
    } else if name == "explosives"@ {
        Some(50)
    } else if name == "crude oil barrel"@ {
        Some(10)
    } else if name == "heavy oil barrel"@ {
        Some(10)
    } else if name == "light oil barrel"@ {
        Some(10)
    } else if name == "lubricant barrel"@ {
        Some(10)
    } else if name == "petroleum gas barrel"@ {
        Some(10)
    } else if name == "sulfuric acid barrel"@ {
        Some(10)
    } else if name == "water barrel"@ {
        Some(10)
    } else if name == "copper cable"@ {
        Some(200)
    } else if name == "iron stick"@ {
        Some(100)
    } else if name == "iron gear wheel"@ {
        Some(100)
    } else if name == "empty barrel"@ {
        Some(10)
    } else if name == "electronic circuit"@ {
        Some(200)
    } else if name == "advanced circuit"@ {
        Some(200)
    } else if name == "processing unit"@ {
        Some(100)
    } else if name == "engine unit"@ {
        Some(50)
    } else if name == "electric engine unit"@ {
        Some(50)
    } else if name == "flying robot frame"@ {
        Some(50)
    } else if name == "rocket control unit"@ {
        Some(10)
    } else if name == "low density structure"@ {
        Some(10)
    } else if name == "rocket fuel"@ {
        Some(10)
    } else if name == "nuclear fuel"@ {
        Some(10)
    } else if name == "uranium-235"@ {
        Some(100)
    } else if name == "uranium-238"@ {
        Some(100)
    } else if name == "uranium fuel cell"@ {
        Some(50)
    } else if name == "used-up uranium fuel cell"@ {
        Some(50)
    } else if name == "automation science pack"@ {
        Some(200)
    } else if name == "logistic science pack"@ {
        Some(200)
    } else if name == "military science pack"@ {
        Some(200)
    } else if name == "chemical science pack"@ {
        Some(200)
    } else if name == "production science pack"@ {
        Some(200)
    } else if name == "utility science pack"@ {
        Some(200)
    } else if name == "space science pack"@ {
        Some(2000)
    // Combat
    } else if name == "firearm magazine"@ {
        Some(200)
    } else if name == "piercing rounds magazine"@ {
        Some(200)
    } else if name == "uranium rounds magazine"@ {
        Some(200)
    } else if name == "shotgun shells"@ {
        Some(200)
    } else if name == "piercing shotgun shells"@ {
        Some(200)
    } else if name == "cannon shell"@ {
        Some(200)
    } else if name == "explosive cannon shell"@ {
        Some(200)
    } else if name == "uranium cannon shell"@ {
        Some(200)
    } else if name == "explosive uranium cannon shell"@ {
        Some(200)
    } else if name == "artillery shell"@ {
        Some(1)
    } else if name == "rocket"@ {
        Some(200)
    } else if name == "explosive rocket"@ {
        Some(200)
    } else if name == "atomic bomb"@ {
        Some(10)
    } else if name == "flamethrower ammo"@ {
        Some(100)
    // Colloquialisms
    } else if name == "speed module 1"@ {
        Some(50)
    } else if name == "efficiency module 1"@ {
        Some(50)
    } else if name == "productivity module 1"@ {
        Some(50)
    } else if name == "fish"@ {
        Some(100)
    } else if name == "steel"@ {
        Some(100)
    } else if name == "plastic"@ {
        Some(100)
    } else if name == "gear"@ {
        Some(100)
    } else if name == "gear wheel"@ {
        Some(100)
    } else if name == "green circuit"@ {
        Some(200)
    } else if name == "red circuit"@ {
        Some(200)
    } else if name == "blue circuit"@ {
        Some(100)
    } else if name == "engine"@ {
        Some(50)
    } else if name == "electric engine"@ {
        Some(50)
    } else if name == "robot frame"@ {
        Some(50)
    } else if name == "frf"@ {
        Some(50)
    } else if name == "rcu"@ {
        Some(10)
    } else if name == "lds"@ {
        Some(10)
    } else if name == "red science"@ {
        Some(200)
    } else if name == "automation science"@ {
        Some(200)
    } else if name == "green science"@ {
        Some(200)
    } else if name == "logistic science"@ {
        Some(200)
    } else if name == "black science"@ {
        Some(200)
    } else if name == "military science"@ {
        Some(200)
    } else if name == "blue science"@ {
        Some(200)
    } else if name == "chemical science"@ {
        Some(200)
    } else if name == "purple science"@ {
        Some(200)
    } else if name == "production science"@ {
        Some(200)
    } else if name == "yellow science"@ {
        Some(200)
    } else if name == "utility science"@ {
        Some(200)
    } else if name == "white science"@ {
        Some(2000)
    } else if name == "space science"@ {
        Some(2000)
    } else if name == "piercing rounds"@ {
        Some(200)
    } else if name == "uranium rounds"@ {
        Some(200)
    } else {
        None
    }
}

/// Looks up the stack size of an item by its lowercase name.
///
/// Canonical names and common short names are both held; any other text,
/// the empty string included, gives `None`.
pub fn fetch_item_stack_size(item_name: &str) -> (r: Option<u32>)
    ensures
        r == stack_size_of(item_name@),
{
    // Logistics
    if same_text(item_name, "stone brick") {
        return Some(100);
    }
    if same_text(item_name, "concrete") {
        return Some(100);
    }
    if same_text(item_name, "hazard concrete") {
        return Some(100);
    }
    if same_text(item_name, "refined concrete") {
        return Some(100);
    }
    if same_text(item_name, "refined hazard concrete") {
        return Some(100);
    }
    if same_text(item_name, "landfill") {
        return Some(100);
    }
    // Production
    if same_text(item_name, "repair pack") {
        return Some(100);
    }
    if same_text(item_name, "speed module") {
        return Some(50);
    }
    if same_text(item_name, "speed module 2") {
        return Some(50);
    }
    if same_text(item_name, "speed module 3") {
        return Some(50);
    }
    if same_text(item_name, "efficiency module") {
        return Some(50);
    }
    if same_text(item_name, "efficiency module 2") {
        return Some(50);
    }
    if same_text(item_name, "efficiency module 3") {
        return Some(50);
    }
    if same_text(item_name, "productivity module") {
        return Some(50);
    }
    if same_text(item_name, "productivity module 2") {
        return Some(50);
    }
    if same_text(item_name, "productivity module 3") {
        return Some(50);
    }
    if same_text(item_name, "satellite") {
        return Some(1);
    }
    // Intermediate products
    if same_text(item_name, "wood") {
        return Some(100);
    }
    if same_text(item_name, "coal") {
        return Some(50);
    }
    if same_text(item_name, "stone") {
        return Some(50);
    }
    if same_text(item_name, "iron ore") {
        return Some(50);
    }
    if same_text(item_name, "copper ore") {
        return Some(50);
    }
    if same_text(item_name, "uranium ore") {
        return Some(50);
    }
    if same_text(item_name, "raw fish") {
        return Some(100);
    }
    if same_text(item_name, "iron plate") {
        return Some(100);
    }
    if same_text(item_name, "copper plate") {
        return Some(100);
    }
    if same_text(item_name, "solid fuel") {
        return Some(50);
    }
    if same_text(item_name, "steel plate") {
        return Some(100);
    }
    if same_text(item_name, "plastic bar") {
        return Some(100);
    }
    if same_text(item_name, "sulfur") {
        return Some(50);
    }
    if same_text(item_name, "battery") {
        return Some(200);
    }
    if same_text(item_name, "explosives") {
        return Some(50);
    }
    if same_text(item_name, "crude oil barrel") {
        return Some(10);
    }
    if same_text(item_name, "heavy oil barrel") {
        return Some(10);
    }
    if same_text(item_name, "light oil barrel") {
        return Some(10);
    }
    if same_text(item_name, "lubricant barrel") {
        return Some(10);
    }
    if same_text(item_name, "petroleum gas barrel") {
        return Some(10);
    }
    if same_text(item_name, "sulfuric acid barrel") {
        return Some(10);
    }
    if same_text(item_name, "water barrel") {
        return Some(10);
    }
    if same_text(item_name, "copper cable") {
        return Some(200);
    }
    if same_text(item_name, "iron stick") {
        return Some(100);
    }
    if same_text(item_name, "iron gear wheel") {
        return Some(100);
    }
    if same_text(item_name, "empty barrel") {
        return Some(10);
    }
    if same_text(item_name, "electronic circuit") {
        return Some(200);
    }
    if same_text(item_name, "advanced circuit") {
        return Some(200);
    }
    if same_text(item_name, "processing unit") {
        return Some(100);
    }
    if same_text(item_name, "engine unit") {
        return Some(50);
    }
    if same_text(item_name, "electric engine unit") {
        return Some(50);
    }
    if same_text(item_name, "flying robot frame") {
        return Some(50);
    }
    if same_text(item_name, "rocket control unit") {
        return Some(10);
    }
    if same_text(item_name, "low density structure") {
        return Some(10);
    }
    if same_text(item_name, "rocket fuel") {
        return Some(10);
    }
    if same_text(item_name, "nuclear fuel") {
        return Some(10);
    }
    if same_text(item_name, "uranium-235") {
        return Some(100);
    }
    if same_text(item_name, "uranium-238") {
        return Some(100);
    }
    if same_text(item_name, "uranium fuel cell") {
        return Some(50);
    }
    if same_text(item_name, "used-up uranium fuel cell") {
        return Some(50);
    }
    if same_text(item_name, "automation science pack") {
        return Some(200);
    }
    if same_text(item_name, "logistic science pack") {
        return Some(200);
    }
    if same_text(item_name, "military science pack") {
        return Some(200);
    }
    if same_text(item_name, "chemical science pack") {
        return Some(200);
    }
    if same_text(item_name, "production science pack") {
        return Some(200);
    }
    if same_text(item_name, "utility science pack") {
        return Some(200);
    }
    if same_text(item_name, "space science pack") {
        return Some(2000);
    }
    // Combat
    if same_text(item_name, "firearm magazine") {
        return Some(200);
    }
    if same_text(item_name, "piercing rounds magazine") {
        return Some(200);
    }
    if same_text(item_name, "uranium rounds magazine") {
        return Some(200);
    }
    if same_text(item_name, "shotgun shells") {
        return Some(200);
    }
    if same_text(item_name, "piercing shotgun shells") {
        return Some(200);
    }
    if same_text(item_name, "cannon shell") {
        return Some(200);
    }
    if same_text(item_name, "explosive cannon shell") {
        return Some(200);
    }
    if same_text(item_name, "uranium cannon shell") {
        return Some(200);
    }
    if same_text(item_name, "explosive uranium cannon shell") {
        return Some(200);
    }
    if same_text(item_name, "artillery shell") {
        return Some(1);
    }
    if same_text(item_name, "rocket") {
        return Some(200);
    }
    if same_text(item_name, "explosive rocket") {
        return Some(200);
    }
    if same_text(item_name, "atomic bomb") {
        return Some(10);
    }
    if same_text(item_name, "flamethrower ammo") {
        return Some(100);
    }
    // Colloquialisms
    if same_text(item_name, "speed module 1") {
        return Some(50);
    }
    if same_text(item_name, "efficiency module 1") {
        return Some(50);
    }
    if same_text(item_name, "productivity module 1") {
        return Some(50);
    }
    if same_text(item_name, "fish") {
        return Some(100);
    }
    if same_text(item_name, "steel") {
        return Some(100);
    }
    if same_text(item_name, "plastic") {
        return Some(100);
    }
    if same_text(item_name, "gear") {
        return Some(100);
    }
    if same_text(item_name, "gear wheel") {
        return Some(100);
    }
    if same_text(item_name, "green circuit") {
        return Some(200);
    }
    if same_text(item_name, "red circuit") {
        return Some(200);
    }
    if same_text(item_name, "blue circuit") {
        return Some(100);
    }
    if same_text(item_name, "engine") {
        return Some(50);
    }
    if same_text(item_name, "electric engine") {
        return Some(50);
    }
    if same_text(item_name, "robot frame") {
        return Some(50);
    }
    if same_text(item_name, "frf") {
        return Some(50);
    }
    if same_text(item_name, "rcu") {
        return Some(10);
    }
    if same_text(item_name, "lds") {
        return Some(10);
    }
    if same_text(item_name, "red science") {
        return Some(200);
    }
    if same_text(item_name, "automation science") {
        return Some(200);
    }
    if same_text(item_name, "green science") {
        return Some(200);
    }
    if same_text(item_name, "logistic science") {
        return Some(200);
    }
    if same_text(item_name, "black science") {
        return Some(200);
    }
    if same_text(item_name, "military science") {
        return Some(200);
    }
    if same_text(item_name, "blue science") {
        return Some(200);
    }
    if same_text(item_name, "chemical science") {
        return Some(200);
    }
    if same_text(item_name, "purple science") {
        return Some(200);
    }
    if same_text(item_name, "production science") {
        return Some(200);
    }
    if same_text(item_name, "yellow science") {
        return Some(200);
    }
    if same_text(item_name, "utility science") {
        return Some(200);
    }
    if same_text(item_name, "white science") {
        return Some(2000);
    }
    if same_text(item_name, "space science") {
        return Some(2000);
    }
    if same_text(item_name, "piercing rounds") {
        return Some(200);
    }
    if same_text(item_name, "uranium rounds") {
        return Some(200);
    }
    None
}

/// The length and three characters of a name: for the names that the table
/// holds, these already tell any two apart.
pub open spec fn name_key(s: Seq<char>) -> (nat, char, char, char) {
    (s.len(), s[1], s[s.len() - 1], s[s.len() - 2])
}

/// The keys of the table's names, read off the literals.
proof fn lemma_name_keys()
    ensures
        name_key("stone brick"@) == (11nat, 't', 'k', 'c'),
        name_key("concrete"@) == (8nat, 'o', 'e', 't'),
        name_key("hazard concrete"@) == (15nat, 'a', 'e', 't'),
        name_key("refined concrete"@) == (16nat, 'e', 'e', 't'),
        name_key("refined hazard concrete"@) == (23nat, 'e', 'e', 't'),
        name_key("landfill"@) == (8nat, 'a', 'l', 'l'),
        name_key("repair pack"@) == (11nat, 'e', 'k', 'c'),
        name_key("speed module"@) == (12nat, 'p', 'e', 'l'),
        name_key("speed module 2"@) == (14nat, 'p', '2', ' '),
        name_key("speed module 3"@) == (14nat, 'p', '3', ' '),
        name_key("efficiency module"@) == (17nat, 'f', 'e', 'l'),
        name_key("efficiency module 2"@) == (19nat, 'f', '2', ' '),
        name_key("efficiency module 3"@) == (19nat, 'f', '3', ' '),
        name_key("productivity module"@) == (19nat, 'r', 'e', 'l'),
        name_key("productivity module 2"@) == (21nat, 'r', '2', ' '),
        name_key("productivity module 3"@) == (21nat, 'r', '3', ' '),
        name_key("satellite"@) == (9nat, 'a', 'e', 't'),
        name_key("wood"@) == (4nat, 'o', 'd', 'o'),
        name_key("coal"@) == (4nat, 'o', 'l', 'a'),
        name_key("stone"@) == (5nat, 't', 'e', 'n'),
        name_key("iron ore"@) == (8nat, 'r', 'e', 'r'),
        name_key("copper ore"@) == (10nat, 'o', 'e', 'r'),
        name_key("uranium ore"@) == (11nat, 'r', 'e', 'r'),
        name_key("raw fish"@) == (8nat, 'a', 'h', 's'),
        name_key("iron plate"@) == (10nat, 'r', 'e', 't'),
        name_key("copper plate"@) == (12nat, 'o', 'e', 't'),
        name_key("solid fuel"@) == (10nat, 'o', 'l', 'e'),
        name_key("steel plate"@) == (11nat, 't', 'e', 't'),
        name_key("plastic bar"@) == (11nat, 'l', 'r', 'a'),
        name_key("sulfur"@) == (6nat, 'u', 'r', 'u'),
        name_key("battery"@) == (7nat, 'a', 'y', 'r'),
        name_key("explosives"@) == (10nat, 'x', 's', 'e'),
        name_key("crude oil barrel"@) == (16nat, 'r', 'l', 'e'),
        name_key("heavy oil barrel"@) == (16nat, 'e', 'l', 'e'),
        name_key("light oil barrel"@) == (16nat, 'i', 'l', 'e'),
        name_key("lubricant barrel"@) == (16nat, 'u', 'l', 'e'),
        name_key("petroleum gas barrel"@) == (20nat, 'e', 'l', 'e'),
        name_key("sulfuric acid barrel"@) == (20nat, 'u', 'l', 'e'),
        name_key("water barrel"@) == (12nat, 'a', 'l', 'e'),
        name_key("copper cable"@) == (12nat, 'o', 'e', 'l'),
        name_key("iron stick"@) == (10nat, 'r', 'k', 'c'),
        name_key("iron gear wheel"@) == (15nat, 'r', 'l', 'e'),
        name_key("empty barrel"@) == (12nat, 'm', 'l', 'e'),
        name_key("electronic circuit"@) == (18nat, 'l', 't', 'i'),
        name_key("advanced circuit"@) == (16nat, 'd', 't', 'i'),
        name_key("processing unit"@) == (15nat, 'r', 't', 'i'),
        name_key("engine unit"@) == (11nat, 'n', 't', 'i'),
        name_key("electric engine unit"@) == (20nat, 'l', 't', 'i'),
        name_key("flying robot frame"@) == (18nat, 'l', 'e', 'm'),
        name_key("rocket control unit"@) == (19nat, 'o', 't', 'i'),
        name_key("low density structure"@) == (21nat, 'o', 'e', 'r'),
        name_key("rocket fuel"@) == (11nat, 'o', 'l', 'e'),
        name_key("nuclear fuel"@) == (12nat, 'u', 'l', 'e'),
        name_key("uranium-235"@) == (11nat, 'r', '5', '3'),
        name_key("uranium-238"@) == (11nat, 'r', '8', '3'),
        name_key("uranium fuel cell"@) == (17nat, 'r', 'l', 'l'),
        name_key("used-up uranium fuel cell"@) == (25nat, 's', 'l', 'l'),
        name_key("automation science pack"@) == (23nat, 'u', 'k', 'c'),
        name_key("logistic science pack"@) == (21nat, 'o', 'k', 'c'),
        name_key("military science pack"@) == (21nat, 'i', 'k', 'c'),
        name_key("chemical science pack"@) == (21nat, 'h', 'k', 'c'),
        name_key("production science pack"@) == (23nat, 'r', 'k', 'c'),
        name_key("utility science pack"@) == (20nat, 't', 'k', 'c'),
        name_key("space science pack"@) == (18nat, 'p', 'k', 'c'),
        name_key("firearm magazine"@) == (16nat, 'i', 'e', 'n'),
        name_key("piercing rounds magazine"@) == (24nat, 'i', 'e', 'n'),
        name_key("uranium rounds magazine"@) == (23nat, 'r', 'e', 'n'),
        name_key("shotgun shells"@) == (14nat, 'h', 's', 'l'),
        name_key("piercing shotgun shells"@) == (23nat, 'i', 's', 'l'),
        name_key("cannon shell"@) == (12nat, 'a', 'l', 'l'),
        name_key("explosive cannon shell"@) == (22nat, 'x', 'l', 'l'),
        name_key("uranium cannon shell"@) == (20nat, 'r', 'l', 'l'),
        name_key("explosive uranium cannon shell"@) == (30nat, 'x', 'l', 'l'),
        name_key("artillery shell"@) == (15nat, 'r', 'l', 'l'),
        name_key("rocket"@) == (6nat, 'o', 't', 'e'),
        name_key("explosive rocket"@) == (16nat, 'x', 't', 'e'),
        name_key("atomic bomb"@) == (11nat, 't', 'b', 'm'),
        name_key("flamethrower ammo"@) == (17nat, 'l', 'o', 'm'),
        name_key("speed module 1"@) == (14nat, 'p', '1', ' '),
        name_key("efficiency module 1"@) == (19nat, 'f', '1', ' '),
        name_key("productivity module 1"@) == (21nat, 'r', '1', ' '),
        name_key("fish"@) == (4nat, 'i', 'h', 's'),
        name_key("steel"@) == (5nat, 't', 'l', 'e'),
        name_key("plastic"@) == (7nat, 'l', 'c', 'i'),
        name_key("gear"@) == (4nat, 'e', 'r', 'a'),
        name_key("gear wheel"@) == (10nat, 'e', 'l', 'e'),
        name_key("green circuit"@) == (13nat, 'r', 't', 'i'),
        name_key("red circuit"@) == (11nat, 'e', 't', 'i'),
        name_key("blue circuit"@) == (12nat, 'l', 't', 'i'),
        name_key("engine"@) == (6nat, 'n', 'e', 'n'),
        name_key("electric engine"@) == (15nat, 'l', 'e', 'n'),
        name_key("robot frame"@) == (11nat, 'o', 'e', 'm'),
        name_key("frf"@) == (3nat, 'r', 'f', 'r'),
        name_key("rcu"@) == (3nat, 'c', 'u', 'c'),
        name_key("lds"@) == (3nat, 'd', 's', 'd'),
        name_key("red science"@) == (11nat, 'e', 'e', 'c'),
        name_key("automation science"@) == (18nat, 'u', 'e', 'c'),
        name_key("green science"@) == (13nat, 'r', 'e', 'c'),
        name_key("logistic science"@) == (16nat, 'o', 'e', 'c'),
        name_key("black science"@) == (13nat, 'l', 'e', 'c'),
        name_key("military science"@) == (16nat, 'i', 'e', 'c'),
        name_key("blue science"@) == (12nat, 'l', 'e', 'c'),
        name_key("chemical science"@) == (16nat, 'h', 'e', 'c'),
        name_key("purple science"@) == (14nat, 'u', 'e', 'c'),
        name_key("production science"@) == (18nat, 'r', 'e', 'c'),
        name_key("yellow science"@) == (14nat, 'e', 'e', 'c'),
        name_key("utility science"@) == (15nat, 't', 'e', 'c'),
        name_key("white science"@) == (13nat, 'h', 'e', 'c'),
        name_key("space science"@) == (13nat, 'p', 'e', 'c'),
        name_key("piercing rounds"@) == (15nat, 'i', 's', 'd'),
        name_key("uranium rounds"@) == (14nat, 'r', 's', 'd'),
{
    reveal_strlit("stone brick");
    reveal_strlit("concrete");
    reveal_strlit("hazard concrete");
    reveal_strlit("refined concrete");
    reveal_strlit("refined hazard concrete");
    reveal_strlit("landfill");
    reveal_strlit("repair pack");
    reveal_strlit("speed module");
    reveal_strlit("speed module 2");
    reveal_strlit("speed module 3");
    reveal_strlit("efficiency module");
    reveal_strlit("efficiency module 2");
    reveal_strlit("efficiency module 3");
    reveal_strlit("productivity module");
    reveal_strlit("productivity module 2");
    reveal_strlit("productivity module 3");
    reveal_strlit("satellite");
    reveal_strlit("wood");
    reveal_strlit("coal");
    reveal_strlit("stone");
    reveal_strlit("iron ore");
    reveal_strlit("copper ore");
    reveal_strlit("uranium ore");
    reveal_strlit("raw fish");
    reveal_strlit("iron plate");
    reveal_strlit("copper plate");
    reveal_strlit("solid fuel");
    reveal_strlit("steel plate");
    reveal_strlit("plastic bar");
    reveal_strlit("sulfur");
    reveal_strlit("battery");
    reveal_strlit("explosives");
    reveal_strlit("crude oil barrel");
    reveal_strlit("heavy oil barrel");
    reveal_strlit("light oil barrel");
    reveal_strlit("lubricant barrel");
    reveal_strlit("petroleum gas barrel");
    reveal_strlit("sulfuric acid barrel");
    reveal_strlit("water barrel");
    reveal_strlit("copper cable");
    reveal_strlit("iron stick");
    reveal_strlit("iron gear wheel");
    reveal_strlit("empty barrel");
    reveal_strlit("electronic circuit");
    reveal_strlit("advanced circuit");
    reveal_strlit("processing unit");
    reveal_strlit("engine unit");
    reveal_strlit("electric engine unit");
    reveal_strlit("flying robot frame");
    reveal_strlit("rocket control unit");
    reveal_strlit("low density structure");
    reveal_strlit("rocket fuel");
    reveal_strlit("nuclear fuel");
    reveal_strlit("uranium-235");
    reveal_strlit("uranium-238");
    reveal_strlit("uranium fuel cell");
    reveal_strlit("used-up uranium fuel cell");
    reveal_strlit("automation science pack");
    reveal_strlit("logistic science pack");
    reveal_strlit("military science pack");
    reveal_strlit("chemical science pack");
    reveal_strlit("production science pack");
    reveal_strlit("utility science pack");
    reveal_strlit("space science pack");
    reveal_strlit("firearm magazine");
    reveal_strlit("piercing rounds magazine");
    reveal_strlit("uranium rounds magazine");
    reveal_strlit("shotgun shells");
    reveal_strlit("piercing shotgun shells");
    reveal_strlit("cannon shell");
    reveal_strlit("explosive cannon shell");
    reveal_strlit("uranium cannon shell");
    reveal_strlit("explosive uranium cannon shell");
    reveal_strlit("artillery shell");
    reveal_strlit("rocket");
    reveal_strlit("explosive rocket");
    reveal_strlit("atomic bomb");
    reveal_strlit("flamethrower ammo");
    reveal_strlit("speed module 1");
    reveal_strlit("efficiency module 1");
    reveal_strlit("productivity module 1");
    reveal_strlit("fish");
    reveal_strlit("steel");
    reveal_strlit("plastic");
    reveal_strlit("gear");
    reveal_strlit("gear wheel");
    reveal_strlit("green circuit");
    reveal_strlit("red circuit");
    reveal_strlit("blue circuit");
    reveal_strlit("engine");
    reveal_strlit("electric engine");
    reveal_strlit("robot frame");
    reveal_strlit("frf");
    reveal_strlit("rcu");
    reveal_strlit("lds");
    reveal_strlit("red science");
    reveal_strlit("automation science");
    reveal_strlit("green science");
    reveal_strlit("logistic science");
    reveal_strlit("black science");
    reveal_strlit("military science");
    reveal_strlit("blue science");
    reveal_strlit("chemical science");
    reveal_strlit("purple science");
    reveal_strlit("production science");
    reveal_strlit("yellow science");
    reveal_strlit("utility science");
    reveal_strlit("white science");
    reveal_strlit("space science");
    reveal_strlit("piercing rounds");
    reveal_strlit("uranium rounds");
}

/// Every short name resolves to the same stack size as the item it stands
/// for, and both are known to the table.
pub proof fn lemma_aliases_agree()
    ensures
        stack_size_of("speed module 1"@) == stack_size_of("speed module"@),
        stack_size_of("efficiency module 1"@) == stack_size_of("efficiency module"@),
        stack_size_of("productivity module 1"@) == stack_size_of("productivity module"@),
        stack_size_of("fish"@) == stack_size_of("raw fish"@),
        stack_size_of("steel"@) == stack_size_of("steel plate"@),
        stack_size_of("plastic"@) == stack_size_of("plastic bar"@),
        stack_size_of("gear"@) == stack_size_of("iron gear wheel"@),
        stack_size_of("gear wheel"@) == stack_size_of("iron gear wheel"@),
        stack_size_of("green circuit"@) == stack_size_of("electronic circuit"@),
        stack_size_of("red circuit"@) == stack_size_of("advanced circuit"@),
        stack_size_of("blue circuit"@) == stack_size_of("processing unit"@),
        stack_size_of("engine"@) == stack_size_of("engine unit"@),
        stack_size_of("electric engine"@) == stack_size_of("electric engine unit"@),
        stack_size_of("robot frame"@) == stack_size_of("flying robot frame"@),
        stack_size_of("frf"@) == stack_size_of("flying robot frame"@),
        stack_size_of("rcu"@) == stack_size_of("rocket control unit"@),
        stack_size_of("lds"@) == stack_size_of("low density structure"@),
        stack_size_of("red science"@) == stack_size_of("automation science pack"@),
        stack_size_of("automation science"@) == stack_size_of("automation science pack"@),
        stack_size_of("green science"@) == stack_size_of("logistic science pack"@),
        stack_size_of("logistic science"@) == stack_size_of("logistic science pack"@),
        stack_size_of("black science"@) == stack_size_of("military science pack"@),
        stack_size_of("military science"@) == stack_size_of("military science pack"@),
        stack_size_of("blue science"@) == stack_size_of("chemical science pack"@),
        stack_size_of("chemical science"@) == stack_size_of("chemical science pack"@),
        stack_size_of("purple science"@) == stack_size_of("production science pack"@),
        stack_size_of("production science"@) == stack_size_of("production science pack"@),
        stack_size_of("yellow science"@) == stack_size_of("utility science pack"@),
        stack_size_of("utility science"@) == stack_size_of("utility science pack"@),
        stack_size_of("white science"@) == stack_size_of("space science pack"@),
        stack_size_of("space science"@) == stack_size_of("space science pack"@),
        stack_size_of("piercing rounds"@) == stack_size_of("piercing rounds magazine"@),
        stack_size_of("uranium rounds"@) == stack_size_of("uranium rounds magazine"@),
        stack_size_of("speed module 1"@) is Some,
        stack_size_of("efficiency module 1"@) is Some,
        stack_size_of("productivity module 1"@) is Some,
        stack_size_of("fish"@) is Some,
        stack_size_of("steel"@) is Some,
        stack_size_of("plastic"@) is Some,
        stack_size_of("gear"@) is Some,
        stack_size_of("gear wheel"@) is Some,
        stack_size_of("green circuit"@) is Some,
        stack_size_of("red circuit"@) is Some,
        stack_size_of("blue circuit"@) is Some,
        stack_size_of("engine"@) is Some,
        stack_size_of("electric engine"@) is Some,
        stack_size_of("robot frame"@) is Some,
        stack_size_of("frf"@) is Some,
        stack_size_of("rcu"@) is Some,
        stack_size_of("lds"@) is Some,
        stack_size_of("red science"@) is Some,
        stack_size_of("automation science"@) is Some,
        stack_size_of("green science"@) is Some,
        stack_size_of("logistic science"@) is Some,
        stack_size_of("black science"@) is Some,
        stack_size_of("military science"@) is Some,
        stack_size_of("blue science"@) is Some,
        stack_size_of("chemical science"@) is Some,
        stack_size_of("purple science"@) is Some,
        stack_size_of("production science"@) is Some,
        stack_size_of("yellow science"@) is Some,
        stack_size_of("utility science"@) is Some,
        stack_size_of("white science"@) is Some,
        stack_size_of("space science"@) is Some,
        stack_size_of("piercing rounds"@) is Some,
        stack_size_of("uranium rounds"@) is Some,
{
    lemma_name_keys();
}

} // verus!
