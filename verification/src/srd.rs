//! Built-in SRD 5.2.1 level-1 rule catalog.
//!
//! Every table is a constant array; parallel arrays share the order of the
//! name array they describe (for instance `CLASS_HIT_DICE[i]` belongs to
//! `CLASS_NAMES[i]`). Lookups return the index of the first entry whose name
//! matches, and their contracts state that index over the arrays themselves.

use vstd::prelude::*;

use crate::text::{in_list, list_contains, str_eq};

verus! {

pub const ABILITIES: [&'static str; 6] = [
    "strength",
    "dexterity",
    "constitution",
    "intelligence",
    "wisdom",
    "charisma",
];

pub const SPELLCASTING_ABILITIES: [&'static str; 3] = ["intelligence", "wisdom", "charisma"];

pub const CLASS_NAMES: [&'static str; 12] = [
    "Barbarian",
    "Bard",
    "Cleric",
    "Druid",
    "Fighter",
    "Monk",
    "Paladin",
    "Ranger",
    "Rogue",
    "Sorcerer",
    "Warlock",
    "Wizard",
];

pub const CLASS_HIT_DICE: [u8; 12] = [12, 8, 8, 8, 10, 8, 10, 10, 8, 6, 8, 6];

pub const CLASS_SKILL_COUNTS: [usize; 12] = [2, 3, 2, 2, 2, 2, 2, 3, 4, 2, 2, 2];

pub const CLASS_MASTERY_COUNTS: [usize; 12] = [2, 0, 0, 0, 3, 0, 2, 2, 2, 0, 0, 0];

pub const CLASS_CANTRIP_COUNTS: [usize; 12] = [0, 2, 3, 2, 0, 0, 0, 0, 0, 4, 2, 3];

pub const CLASS_PREPARED_COUNTS: [usize; 12] = [0, 4, 4, 4, 0, 0, 2, 2, 0, 2, 2, 4];

/// Gold granted instead of the class package.
pub const CLASS_STARTING_GOLD: [u16; 12] = [75, 90, 110, 50, 155, 50, 150, 150, 100, 50, 100, 55];

/// Gold that accompanies class package A.
pub const CLASS_PACKAGE_GOLD: [u16; 12] = [15, 19, 7, 9, 4, 11, 9, 7, 8, 28, 15, 5];

pub const CLASS_FIRST_SAVES: [&'static str; 12] = [
    "strength",
    "dexterity",
    "wisdom",
    "intelligence",
    "strength",
    "strength",
    "wisdom",
    "strength",
    "dexterity",
    "constitution",
    "wisdom",
    "intelligence",
];

pub const CLASS_SECOND_SAVES: [&'static str; 12] = [
    "constitution",
    "charisma",
    "charisma",
    "wisdom",
    "constitution",
    "dexterity",
    "charisma",
    "dexterity",
    "intelligence",
    "charisma",
    "charisma",
    "wisdom",
];

pub const CLASS_ARMOR: [&'static str; 12] = [
    "Light, Medium, Shields",
    "Light",
    "Light, Medium, Shields",
    "Light, Shields",
    "Light, Medium, Heavy, Shields",
    "none",
    "Light, Medium, Heavy, Shields",
    "Light, Medium, Shields",
    "Light",
    "none",
    "Light",
    "none",
];

pub const CLASS_WEAPONS: [&'static str; 12] = [
    "Simple and Martial",
    "Simple",
    "Simple",
    "Simple",
    "Simple and Martial",
    "Simple and Martial Light",
    "Simple and Martial",
    "Simple and Martial",
    "Simple and Martial Finesse or Light",
    "Simple",
    "Simple",
    "Simple",
];

/// Suggested arrays, in the order of `ABILITIES`.
pub const SUGGESTED_ARRAYS: [[u8; 6]; 12] = [
    [15, 13, 14, 10, 12, 8],
    [8, 14, 12, 13, 10, 15],
    [14, 8, 13, 10, 15, 12],
    [8, 12, 14, 13, 15, 10],
    [15, 14, 13, 8, 10, 12],
    [12, 15, 13, 10, 14, 8],
    [15, 10, 13, 8, 12, 14],
    [12, 15, 13, 8, 14, 10],
    [12, 15, 13, 14, 10, 8],
    [10, 13, 14, 8, 12, 15],
    [8, 14, 13, 12, 10, 15],
    [8, 12, 13, 15, 14, 10],
];

pub const STANDARD_ARRAY: [u8; 6] = [15, 14, 13, 12, 10, 8];

pub const POINT_BUY_BUDGET: u8 = 27;

pub const SKILLS: [&'static str; 18] = [
    "Acrobatics",
    "Animal Handling",
    "Arcana",
    "Athletics",
    "Deception",
    "History",
    "Insight",
    "Intimidation",
    "Investigation",
    "Medicine",
    "Nature",
    "Perception",
    "Performance",
    "Persuasion",
    "Religion",
    "Sleight of Hand",
    "Stealth",
    "Survival",
];

pub const SKILL_ABILITIES: [&'static str; 18] = [
    "dexterity",
    "wisdom",
    "intelligence",
    "strength",
    "charisma",
    "intelligence",
    "wisdom",
    "charisma",
    "intelligence",
    "wisdom",
    "intelligence",
    "wisdom",
    "charisma",
    "charisma",
    "intelligence",
    "dexterity",
    "dexterity",
    "wisdom",
];

pub const BARBARIAN_SKILLS: [&'static str; 6] = [
    "Animal Handling",
    "Athletics",
    "Intimidation",
    "Nature",
    "Perception",
    "Survival",
];

pub const CLERIC_SKILLS: [&'static str; 5] = [
    "History",
    "Insight",
    "Medicine",
    "Persuasion",
    "Religion",
];

pub const DRUID_SKILLS: [&'static str; 8] = [
    "Animal Handling",
    "Arcana",
    "Insight",
    "Medicine",
    "Nature",
    "Perception",
    "Religion",
    "Survival",
];

pub const FIGHTER_SKILLS: [&'static str; 9] = [
    "Acrobatics",
    "Animal Handling",
    "Athletics",
    "History",
    "Insight",
    "Intimidation",
    "Perception",
    "Persuasion",
    "Survival",
];

pub const MONK_SKILLS: [&'static str; 6] = [
    "Acrobatics",
    "Athletics",
    "History",
    "Insight",
    "Religion",
    "Stealth",
];

pub const PALADIN_SKILLS: [&'static str; 6] = [
    "Athletics",
    "Insight",
    "Intimidation",
    "Medicine",
    "Persuasion",
    "Religion",
];

pub const RANGER_SKILLS: [&'static str; 8] = [
    "Animal Handling",
    "Athletics",
    "Insight",
    "Investigation",
    "Nature",
    "Perception",
    "Stealth",
    "Survival",
];

pub const ROGUE_SKILLS: [&'static str; 10] = [
    "Acrobatics",
    "Athletics",
    "Deception",
    "Insight",
    "Intimidation",
    "Investigation",
    "Perception",
    "Persuasion",
    "Sleight of Hand",
    "Stealth",
];

pub const SORCERER_SKILLS: [&'static str; 6] = [
    "Arcana",
    "Deception",
    "Insight",
    "Intimidation",
    "Persuasion",
    "Religion",
];

pub const WARLOCK_SKILLS: [&'static str; 7] = [
    "Arcana",
    "Deception",
    "History",
    "Intimidation",
    "Investigation",
    "Nature",
    "Religion",
];

pub const WIZARD_SKILLS: [&'static str; 7] = [
    "Arcana",
    "History",
    "Insight",
    "Investigation",
    "Medicine",
    "Nature",
    "Religion",
];

pub const ORIGIN_FEATS: [&'static str; 4] = ["Alert", "Magic Initiate", "Savage Attacker", "Skilled"];

pub const ALIGNMENTS: [&'static str; 9] = [
    "Lawful Good",
    "Neutral Good",
    "Chaotic Good",
    "Lawful Neutral",
    "Neutral",
    "Chaotic Neutral",
    "Lawful Evil",
    "Neutral Evil",
    "Chaotic Evil",
];

pub const STANDARD_LANGUAGES: [&'static str; 9] = [
    "Common Sign Language",
    "Draconic",
    "Dwarvish",
    "Elvish",
    "Giant",
    "Gnomish",
    "Goblin",
    "Halfling",
    "Orc",
];

pub const FIGHTING_STYLES: [&'static str; 4] = [
    "Archery",
    "Defense",
    "Great Weapon Fighting",
    "Two-Weapon Fighting",
];

pub const WARLOCK_INVOCATIONS: [&'static str; 5] = [
    "Armor of Shadows",
    "Eldritch Mind",
    "Pact of the Blade",
    "Pact of the Chain",
    "Pact of the Tome",
];

pub const MUSICAL_INSTRUMENTS: [&'static str; 10] = [
    "Bagpipes",
    "Drum",
    "Dulcimer",
    "Flute",
    "Horn",
    "Lute",
    "Lyre",
    "Pan Flute",
    "Shawm",
    "Viol",
];

pub const ARTISAN_TOOLS: [&'static str; 17] = [
    "Alchemist's Supplies",
    "Brewer's Supplies",
    "Calligrapher's Supplies",
    "Carpenter's Tools",
    "Cartographer's Tools",
    "Cobbler's Tools",
    "Cook's Utensils",
    "Glassblower's Tools",
    "Jeweler's Tools",
    "Leatherworker's Tools",
    "Mason's Tools",
    "Painter's Supplies",
    "Potter's Tools",
    "Smith's Tools",
    "Tinker's Tools",
    "Weaver's Tools",
    "Woodcarver's Tools",
];

pub const OTHER_TOOLS: [&'static str; 10] = [
    "Disguise Kit",
    "Forgery Kit",
    "Herbalism Kit",
    "Navigator's Tools",
    "Poisoner's Kit",
    "Thieves' Tools",
    "Dice Set",
    "Dragonchess Set",
    "Playing Card Set",
    "Three-Dragon Ante Set",
];

pub const DRACONIC_ANCESTRIES: [&'static str; 10] = [
    "Black",
    "Blue",
    "Brass",
    "Bronze",
    "Copper",
    "Gold",
    "Green",
    "Red",
    "Silver",
    "White",
];

pub const ELF_LINEAGES: [&'static str; 3] = ["Drow", "High Elf", "Wood Elf"];

pub const KEEN_SENSES_SKILLS: [&'static str; 3] = ["Insight", "Perception", "Survival"];

pub const GNOME_LINEAGES: [&'static str; 2] = ["Forest Gnome", "Rock Gnome"];

pub const GIANT_ANCESTRIES: [&'static str; 6] = [
    "Cloud Giant",
    "Fire Giant",
    "Frost Giant",
    "Hill Giant",
    "Stone Giant",
    "Storm Giant",
];

pub const FIENDISH_LEGACIES: [&'static str; 3] = ["Abyssal", "Chthonic", "Infernal"];

pub const DIVINE_ORDERS: [&'static str; 2] = ["Protector", "Thaumaturge"];

pub const PRIMAL_ORDERS: [&'static str; 2] = ["Magician", "Warden"];

pub const BACKGROUND_NAMES: [&'static str; 4] = ["Acolyte", "Criminal", "Sage", "Soldier"];

pub const BACKGROUND_FIRST_ABILITIES: [&'static str; 4] = [
    "intelligence",
    "dexterity",
    "constitution",
    "strength",
];

pub const BACKGROUND_SECOND_ABILITIES: [&'static str; 4] = [
    "wisdom",
    "constitution",
    "intelligence",
    "dexterity",
];

pub const BACKGROUND_THIRD_ABILITIES: [&'static str; 4] = [
    "charisma",
    "intelligence",
    "wisdom",
    "constitution",
];

pub const BACKGROUND_FEATS: [&'static str; 4] = [
    "Magic Initiate",
    "Alert",
    "Magic Initiate",
    "Savage Attacker",
];

pub const BACKGROUND_FIRST_SKILLS: [&'static str; 4] = ["Insight", "Sleight of Hand", "Arcana", "Athletics"];

pub const BACKGROUND_SECOND_SKILLS: [&'static str; 4] = ["Religion", "Stealth", "History", "Intimidation"];

pub const BACKGROUND_TOOLS: [&'static str; 4] = [
    "Calligrapher's Supplies",
    "Thieves' Tools",
    "Calligrapher's Supplies",
    "Playing Card Set",
];

/// The Magic Initiate list a background fixes; empty where its feat is another.
pub const BACKGROUND_MAGIC_LISTS: [&'static str; 4] = ["Cleric", "", "Wizard", ""];

pub const BACKGROUND_PACKAGE_GOLD: [u16; 4] = [8, 16, 8, 14];

pub const SPECIES_NAMES: [&'static str; 9] = [
    "Dragonborn",
    "Dwarf",
    "Elf",
    "Gnome",
    "Goliath",
    "Halfling",
    "Human",
    "Orc",
    "Tiefling",
];

pub const SPECIES_SPEEDS: [u8; 9] = [30, 30, 30, 30, 35, 30, 30, 30, 30];

/// Darkvision range in feet; zero where the species has none.
pub const SPECIES_DARKVISION: [u8; 9] = [60, 120, 60, 60, 0, 0, 0, 120, 60];

/// Whether each species may be Small.
pub const SPECIES_SMALL: [bool; 9] = [false, false, false, true, false, true, true, false, true];

/// Whether each species may be Medium.
pub const SPECIES_MEDIUM: [bool; 9] = [true, true, true, false, true, false, true, true, true];

pub const WEAPON_NAMES: [&'static str; 38] = [
    "Club",
    "Dagger",
    "Greatclub",
    "Handaxe",
    "Javelin",
    "Light Hammer",
    "Mace",
    "Quarterstaff",
    "Sickle",
    "Spear",
    "Dart",
    "Light Crossbow",
    "Shortbow",
    "Sling",
    "Battleaxe",
    "Flail",
    "Glaive",
    "Greataxe",
    "Greatsword",
    "Halberd",
    "Lance",
    "Longsword",
    "Maul",
    "Morningstar",
    "Pike",
    "Rapier",
    "Scimitar",
    "Shortsword",
    "Trident",
    "Warhammer",
    "War Pick",
    "Whip",
    "Blowgun",
    "Hand Crossbow",
    "Heavy Crossbow",
    "Longbow",
    "Musket",
    "Pistol",
];

pub const WEAPON_MARTIAL: [bool; 38] = [
    false, false, false, false, false, false, false, false, false, false,
    false, false, false, false,
    true, true, true, true, true, true, true, true, true, true, true, true, true, true, true, true,
    true, true,
    true, true, true, true, true, true,
];

pub const WEAPON_RANGED: [bool; 38] = [
    false, false, false, false, false, false, false, false, false, false,
    true, true, true, true,
    false, false, false, false, false, false, false, false, false, false, false, false, false,
    false, false, false, false, false,
    true, true, true, true, true, true,
];

/// Whether each weapon has the Finesse or the Light property.
pub const WEAPON_FINESSE_OR_LIGHT: [bool; 38] = [
    true, true, false, true, false, true, false, false, true, false,
    true, false, false, false,
    false, false, false, false, false, false, false, false, false, false, false, true, true, true,
    false, false, false, true,
    false, true, false, false, false, false,
];

pub const WEAPON_PROPERTIES: [&'static str; 38] = [
    "Light",
    "Finesse, Light, Thrown",
    "Two-Handed",
    "Light, Thrown",
    "Thrown",
    "Light, Thrown",
    "",
    "Versatile",
    "Light",
    "Thrown, Versatile",
    "Finesse, Thrown",
    "Ammunition, Loading, Two-Handed",
    "Ammunition, Two-Handed",
    "Ammunition",
    "Versatile",
    "",
    "Heavy, Reach, Two-Handed",
    "Heavy, Two-Handed",
    "Heavy, Two-Handed",
    "Heavy, Reach, Two-Handed",
    "Heavy, Reach, Two-Handed",
    "Versatile",
    "Heavy, Two-Handed",
    "",
    "Heavy, Reach, Two-Handed",
    "Finesse",
    "Finesse, Light",
    "Finesse, Light",
    "Thrown, Versatile",
    "Versatile",
    "Versatile",
    "Finesse, Reach",
    "Ammunition, Loading",
    "Ammunition, Light, Loading",
    "Ammunition, Heavy, Loading, Two-Handed",
    "Ammunition, Heavy, Two-Handed",
    "Ammunition, Loading, Two-Handed",
    "Ammunition, Loading",
];

pub const WEAPON_MASTERIES: [&'static str; 38] = [
    "Slow", "Nick", "Push", "Vex", "Slow", "Nick", "Sap", "Topple", "Nick", "Sap",
    "Vex", "Slow", "Vex", "Slow",
    "Topple", "Sap", "Graze", "Cleave", "Graze", "Cleave", "Topple", "Sap", "Topple", "Sap", "Push",
    "Vex", "Nick", "Vex", "Topple", "Push", "Sap", "Slow",
    "Vex", "Vex", "Push", "Slow", "Slow", "Vex",
];

pub const WEAPON_DAMAGE: [&'static str; 38] = [
    "1d4", "1d4", "1d8", "1d6", "1d6", "1d4", "1d6", "1d6", "1d4", "1d6",
    "1d4", "1d8", "1d6", "1d4",
    "1d8", "1d8", "1d10", "1d12", "2d6", "1d10", "1d10", "1d8", "2d6", "1d8", "1d10", "1d8",
    "1d6", "1d6", "1d8", "1d8", "1d8", "1d4",
    "1", "1d6", "1d10", "1d8", "1d12", "1d10",
];

pub const WEAPON_DAMAGE_TYPES: [&'static str; 38] = [
    "Bludgeoning", "Piercing", "Bludgeoning", "Slashing", "Piercing", "Bludgeoning",
    "Bludgeoning", "Bludgeoning", "Slashing", "Piercing",
    "Piercing", "Piercing", "Piercing", "Bludgeoning",
    "Slashing", "Bludgeoning", "Slashing", "Slashing", "Slashing", "Slashing", "Piercing",
    "Slashing", "Bludgeoning", "Piercing", "Piercing", "Piercing", "Slashing", "Piercing",
    "Piercing", "Bludgeoning", "Piercing", "Slashing",
    "Piercing", "Piercing", "Piercing", "Piercing", "Piercing", "Piercing",
];

/// Normal range in feet (reach for melee weapons without the Thrown property).
pub const WEAPON_NORMAL_RANGE: [u16; 38] = [
    5, 20, 5, 20, 30, 20, 5, 5, 5, 20,
    20, 80, 80, 30,
    5, 5, 10, 5, 5, 10, 10, 5, 5, 5, 10, 5, 5, 5, 20, 5, 5, 10,
    25, 30, 100, 150, 40, 30,
];

/// Long range in feet; zero where the weapon has none.
pub const WEAPON_LONG_RANGE: [u16; 38] = [
    0, 60, 0, 60, 120, 60, 0, 0, 0, 60,
    60, 320, 320, 120,
    0, 0, 0, 0, 0, 0, 0, 0, 0, 0, 0, 0, 0, 0, 60, 0, 0, 0,
    100, 120, 400, 600, 120, 90,
];

pub const ARMOR_NAMES: [&'static str; 12] = [
    "Padded Armor",
    "Leather Armor",
    "Studded Leather Armor",
    "Hide Armor",
    "Chain Shirt",
    "Scale Mail",
    "Breastplate",
    "Half Plate Armor",
    "Ring Mail",
    "Chain Mail",
    "Splint Armor",
    "Plate Armor",
];

pub const BARD_CANTRIPS: [&'static str; 11] = [
    "Dancing Lights",
    "Light",
    "Mage Hand",
    "Mending",
    "Message",
    "Minor Illusion",
    "Prestidigitation",
    "Starry Wisp",
    "Thunderclap",
    "True Strike",
    "Vicious Mockery",
];

pub const BARD_LEVEL_ONE: [&'static str; 20] = [
    "Animal Friendship",
    "Bane",
    "Charm Person",
    "Color Spray",
    "Command",
    "Comprehend Languages",
    "Cure Wounds",
    "Detect Magic",
    "Disguise Self",
    "Dissonant Whispers",
    "Faerie Fire",
    "Feather Fall",
    "Healing Word",
    "Heroism",
    "Identify",
    "Illusory Script",
    "Longstrider",
    "Silent Image",
    "Sleep",
    "Thunderwave",
];

pub const CLERIC_CANTRIPS: [&'static str; 8] = [
    "Guidance",
    "Light",
    "Mending",
    "Resistance",
    "Sacred Flame",
    "Spare the Dying",
    "Thaumaturgy",
    "Toll the Dead",
];

pub const CLERIC_LEVEL_ONE: [&'static str; 14] = [
    "Bane",
    "Bless",
    "Command",
    "Create or Destroy Water",
    "Cure Wounds",
    "Detect Evil and Good",
    "Detect Magic",
    "Detect Poison and Disease",
    "Guiding Bolt",
    "Healing Word",
    "Inflict Wounds",
    "Protection from Evil and Good",
    "Purify Food and Drink",
    "Sanctuary",
];

pub const DRUID_CANTRIPS: [&'static str; 12] = [
    "Druidcraft",
    "Elementalism",
    "Guidance",
    "Mending",
    "Message",
    "Poison Spray",
    "Produce Flame",
    "Resistance",
    "Shillelagh",
    "Spare the Dying",
    "Starry Wisp",
    "Thorn Whip",
];

pub const DRUID_LEVEL_ONE: [&'static str; 16] = [
    "Animal Friendship",
    "Charm Person",
    "Create or Destroy Water",
    "Cure Wounds",
    "Detect Magic",
    "Detect Poison and Disease",
    "Entangle",
    "Faerie Fire",
    "Fog Cloud",
    "Goodberry",
    "Healing Word",
    "Ice Knife",
    "Jump",
    "Longstrider",
    "Protection from Evil and Good",
    "Thunderwave",
];

pub const PALADIN_LEVEL_ONE: [&'static str; 13] = [
    "Bless",
    "Command",
    "Compelled Duel",
    "Cure Wounds",
    "Detect Evil and Good",
    "Detect Magic",
    "Detect Poison and Disease",
    "Divine Favor",
    "Divine Smite",
    "Heroism",
    "Protection from Evil and Good",
    "Purify Food and Drink",
    "Shield of Faith",
];

pub const RANGER_LEVEL_ONE: [&'static str; 12] = [
    "Alarm",
    "Animal Friendship",
    "Cure Wounds",
    "Detect Magic",
    "Detect Poison and Disease",
    "Ensnaring Strike",
    "Entangle",
    "Fog Cloud",
    "Goodberry",
    "Hunter's Mark",
    "Jump",
    "Longstrider",
];

pub const SORCERER_CANTRIPS: [&'static str; 15] = [
    "Acid Splash",
    "Chill Touch",
    "Dancing Lights",
    "Elementalism",
    "Fire Bolt",
    "Light",
    "Mage Hand",
    "Mending",
    "Message",
    "Minor Illusion",
    "Poison Spray",
    "Prestidigitation",
    "Ray of Frost",
    "Shocking Grasp",
    "Sorcerous Burst",
];

pub const SORCERER_LEVEL_ONE: [&'static str; 18] = [
    "Burning Hands",
    "Charm Person",
    "Chromatic Orb",
    "Color Spray",
    "Comprehend Languages",
    "Detect Magic",
    "Disguise Self",
    "Expeditious Retreat",
    "False Life",
    "Feather Fall",
    "Fog Cloud",
    "Grease",
    "Jump",
    "Mage Armor",
    "Magic Missile",
    "Ray of Sickness",
    "Shield",
    "Sleep",
];

pub const WARLOCK_CANTRIPS: [&'static str; 10] = [
    "Blade Ward",
    "Chill Touch",
    "Eldritch Blast",
    "Friends",
    "Mage Hand",
    "Minor Illusion",
    "Poison Spray",
    "Prestidigitation",
    "Thunderclap",
    "True Strike",
];

pub const WARLOCK_LEVEL_ONE: [&'static str; 10] = [
    "Armor of Agathys",
    "Arms of Hadar",
    "Bane",
    "Charm Person",
    "Comprehend Languages",
    "Expeditious Retreat",
    "Hellish Rebuke",
    "Hex",
    "Illusory Script",
    "Protection from Evil and Good",
];

pub const WIZARD_CANTRIPS: [&'static str; 18] = [
    "Acid Splash",
    "Blade Ward",
    "Chill Touch",
    "Dancing Lights",
    "Elementalism",
    "Fire Bolt",
    "Friends",
    "Light",
    "Mage Hand",
    "Mending",
    "Message",
    "Minor Illusion",
    "Poison Spray",
    "Prestidigitation",
    "Ray of Frost",
    "Shocking Grasp",
    "Thunderclap",
    "True Strike",
];

pub const WIZARD_LEVEL_ONE: [&'static str; 24] = [
    "Alarm",
    "Burning Hands",
    "Charm Person",
    "Chromatic Orb",
    "Color Spray",
    "Comprehend Languages",
    "Detect Magic",
    "Disguise Self",
    "Expeditious Retreat",
    "False Life",
    "Feather Fall",
    "Find Familiar",
    "Fog Cloud",
    "Grease",
    "Ice Knife",
    "Identify",
    "Illusory Script",
    "Jump",
    "Longstrider",
    "Mage Armor",
    "Magic Missile",
    "Protection from Evil and Good",
    "Shield",
    "Sleep",
];

/// Spell lists that have a level-1 catalog, in the order `class_spell_list` uses.
pub const SPELL_LISTS: [&'static str; 8] = [
    "Bard",
    "Cleric",
    "Druid",
    "Paladin",
    "Ranger",
    "Sorcerer",
    "Warlock",
    "Wizard",
];

pub const EMPTY: [&'static str; 0] = [];

pub const RANGER_ALWAYS_PREPARED: [&'static str; 1] = ["Hunter's Mark"];

pub const BARBARIAN_PACKAGE: [&'static str; 3] = ["Greataxe", "Handaxe", "Explorer's Pack"];

pub const BARBARIAN_PACKAGE_COUNTS: [u16; 3] = [1, 4, 1];

pub const BARD_PACKAGE: [&'static str; 4] = [
    "Leather Armor",
    "Dagger",
    "Musical Instrument",
    "Entertainer's Pack",
];

pub const BARD_PACKAGE_COUNTS: [u16; 4] = [1, 2, 1, 1];

pub const CLERIC_PACKAGE: [&'static str; 5] = [
    "Chain Shirt",
    "Shield",
    "Mace",
    "Holy Symbol",
    "Priest's Pack",
];

pub const CLERIC_PACKAGE_COUNTS: [u16; 5] = [1, 1, 1, 1, 1];

pub const DRUID_PACKAGE: [&'static str; 6] = [
    "Leather Armor",
    "Shield",
    "Sickle",
    "Druidic Focus (Quarterstaff)",
    "Explorer's Pack",
    "Herbalism Kit",
];

pub const DRUID_PACKAGE_COUNTS: [u16; 6] = [1, 1, 1, 1, 1, 1];

pub const FIGHTER_PACKAGE: [&'static str; 5] = [
    "Chain Mail",
    "Greatsword",
    "Flail",
    "Javelin",
    "Dungeoneer's Pack",
];

pub const FIGHTER_PACKAGE_COUNTS: [u16; 5] = [1, 1, 1, 8, 1];

pub const FIGHTER_SECOND_PACKAGE: [&'static str; 7] = [
    "Studded Leather Armor",
    "Scimitar",
    "Shortsword",
    "Longbow",
    "Arrow",
    "Quiver",
    "Dungeoneer's Pack",
];

pub const FIGHTER_SECOND_PACKAGE_COUNTS: [u16; 7] = [1, 1, 1, 1, 20, 1, 1];

pub const FIGHTER_SECOND_PACKAGE_GOLD: u16 = 11;

pub const MONK_PACKAGE: [&'static str; 4] = [
    "Spear",
    "Dagger",
    "Artisan's Tools or Musical Instrument",
    "Explorer's Pack",
];

pub const MONK_PACKAGE_COUNTS: [u16; 4] = [1, 5, 1, 1];

pub const PALADIN_PACKAGE: [&'static str; 6] = [
    "Chain Mail",
    "Shield",
    "Longsword",
    "Javelin",
    "Holy Symbol",
    "Priest's Pack",
];

pub const PALADIN_PACKAGE_COUNTS: [u16; 6] = [1, 1, 1, 6, 1, 1];

pub const RANGER_PACKAGE: [&'static str; 8] = [
    "Studded Leather Armor",
    "Scimitar",
    "Shortsword",
    "Longbow",
    "Arrow",
    "Quiver",
    "Druidic Focus (Sprig of Mistletoe)",
    "Explorer's Pack",
];

pub const RANGER_PACKAGE_COUNTS: [u16; 8] = [1, 1, 1, 1, 20, 1, 1, 1];

pub const ROGUE_PACKAGE: [&'static str; 8] = [
    "Leather Armor",
    "Dagger",
    "Shortsword",
    "Shortbow",
    "Arrow",
    "Quiver",
    "Thieves' Tools",
    "Burglar's Pack",
];

pub const ROGUE_PACKAGE_COUNTS: [u16; 8] = [1, 2, 1, 1, 20, 1, 1, 1];

pub const SORCERER_PACKAGE: [&'static str; 4] = [
    "Spear",
    "Dagger",
    "Arcane Focus (Crystal)",
    "Dungeoneer's Pack",
];

pub const SORCERER_PACKAGE_COUNTS: [u16; 4] = [1, 2, 1, 1];

pub const WARLOCK_PACKAGE: [&'static str; 6] = [
    "Leather Armor",
    "Sickle",
    "Dagger",
    "Arcane Focus (Orb)",
    "Book (Occult Lore)",
    "Scholar's Pack",
];

pub const WARLOCK_PACKAGE_COUNTS: [u16; 6] = [1, 1, 2, 1, 1, 1];

pub const WIZARD_PACKAGE: [&'static str; 5] = [
    "Dagger",
    "Arcane Focus (Quarterstaff)",
    "Robe",
    "Spellbook",
    "Scholar's Pack",
];

pub const WIZARD_PACKAGE_COUNTS: [u16; 5] = [2, 1, 1, 1, 1];

pub const ACOLYTE_PACKAGE: [&'static str; 5] = [
    "Calligrapher's Supplies",
    "Book (Prayers)",
    "Holy Symbol",
    "Parchment",
    "Robe",
];

pub const ACOLYTE_PACKAGE_COUNTS: [u16; 5] = [1, 1, 1, 10, 1];

pub const CRIMINAL_PACKAGE: [&'static str; 5] = [
    "Dagger",
    "Thieves' Tools",
    "Crowbar",
    "Pouch",
    "Traveler's Clothes",
];

pub const CRIMINAL_PACKAGE_COUNTS: [u16; 5] = [2, 1, 1, 2, 1];

pub const SAGE_PACKAGE: [&'static str; 5] = [
    "Quarterstaff",
    "Calligrapher's Supplies",
    "Book (History)",
    "Parchment",
    "Robe",
];

pub const SAGE_PACKAGE_COUNTS: [u16; 5] = [1, 1, 1, 8, 1];

pub const SOLDIER_PACKAGE: [&'static str; 7] = [
    "Spear",
    "Shortbow",
    "Arrow",
    "Playing Card Set",
    "Healer's Kit",
    "Quiver",
    "Traveler's Clothes",
];

pub const SOLDIER_PACKAGE_COUNTS: [u16; 7] = [1, 1, 20, 1, 1, 1, 1];

/// The index of the first entry of `list` whose characters are `s`.
pub open spec fn first_index(list: Seq<&str>, s: Seq<char>, from: int) -> Option<int>
    decreases list.len() - from,
{
    if from < 0 || from >= list.len() {
        None
    } else if list[from]@ == s {
        Some(from)
    } else {
        first_index(list, s, from + 1)
    }
}

/// The index of `s` in `list`, the first where it occurs twice.
pub open spec fn index_of(list: Seq<&str>, s: Seq<char>) -> Option<int> {
    first_index(list, s, 0)
}

pub proof fn lemma_first_index(list: Seq<&str>, s: Seq<char>, from: int)
    requires
        0 <= from,
    ensures
        first_index(list, s, from) matches Some(i) ==> from <= i < list.len() && list[i]@ == s
            && forall|j: int| from <= j < i ==> list[j]@ != s,
        first_index(list, s, from) is None ==> forall|j: int| from <= j < list.len() ==> list[j]@ != s,
    decreases list.len() - from,
{
    if from < list.len() && list[from]@ != s {
        lemma_first_index(list, s, from + 1);
    }
}

/// `index_of` finds exactly the entries that `in_list` speaks of.
pub proof fn lemma_index_of(list: Seq<&str>, s: Seq<char>)
    ensures
        index_of(list, s) matches Some(i) ==> 0 <= i < list.len() && list[i]@ == s,
        index_of(list, s) is Some <==> in_list(list, s),
{
    lemma_first_index(list, s, 0);
    if index_of(list, s) is None {
        if in_list(list, s) {
            let k = choose|k: int| 0 <= k < list.len() && #[trigger] list[k]@ == s;
            assert(list[k]@ != s);
        }
    }
}

/// The index of the first entry of `list` that is `s`.
pub fn find(list: &[&str], s: &str) -> (r: Option<usize>)
    ensures
        match r {
            Some(i) => index_of(list@, s@) == Some(i as int) && i < list@.len() && list@[i as int]@ == s@,
            None => index_of(list@, s@) is None && !in_list(list@, s@),
        },
{
    proof {
        lemma_index_of(list@, s@);
    }
    let mut i: usize = 0;
    while i < list.len()
        invariant
            i <= list.len(),
            index_of(list@, s@) == first_index(list@, s@, i as int),
            index_of(list@, s@) is Some <==> in_list(list@, s@),
        decreases list.len() - i,
    {
        if str_eq(list[i], s) {
            return Some(i);
        }
        i = i + 1;
    }
    None
}

/// The SRD class whose name is `s`, as an index into the class tables.
pub open spec fn class_index(s: Seq<char>) -> Option<int> {
    index_of(CLASS_NAMES@, s)
}

/// The SRD background whose name is `s`.
pub open spec fn background_index(s: Seq<char>) -> Option<int> {
    index_of(BACKGROUND_NAMES@, s)
}

/// The SRD species whose name is `s`.
pub open spec fn species_index(s: Seq<char>) -> Option<int> {
    index_of(SPECIES_NAMES@, s)
}

/// The SRD weapon whose name is `s`.
pub open spec fn weapon_index(s: Seq<char>) -> Option<int> {
    index_of(WEAPON_NAMES@, s)
}

/// The level-1 spell list named `s`.
pub open spec fn spell_list_index(s: Seq<char>) -> Option<int> {
    index_of(SPELL_LISTS@, s)
}

pub fn class_index_exec(s: &str) -> (r: Option<usize>)
    ensures
        match r {
            Some(i) => class_index(s@) == Some(i as int) && i < 12 && CLASS_NAMES@[i as int]@ == s@,
            None => class_index(s@) is None && !in_list(CLASS_NAMES@, s@),
        },
{
    find(CLASS_NAMES.as_slice(), s)
}

pub fn background_index_exec(s: &str) -> (r: Option<usize>)
    ensures
        match r {
            Some(i) => background_index(s@) == Some(i as int) && i < 4 && BACKGROUND_NAMES@[i as int]@
                == s@,
            None => background_index(s@) is None && !in_list(BACKGROUND_NAMES@, s@),
        },
{
    find(BACKGROUND_NAMES.as_slice(), s)
}

pub fn species_index_exec(s: &str) -> (r: Option<usize>)
    ensures
        match r {
            Some(i) => species_index(s@) == Some(i as int) && i < 9 && SPECIES_NAMES@[i as int]@ == s@,
            None => species_index(s@) is None && !in_list(SPECIES_NAMES@, s@),
        },
{
    find(SPECIES_NAMES.as_slice(), s)
}

pub fn weapon_index_exec(s: &str) -> (r: Option<usize>)
    ensures
        match r {
            Some(i) => weapon_index(s@) == Some(i as int) && i < 38 && WEAPON_NAMES@[i as int]@ == s@,
            None => weapon_index(s@) is None && !in_list(WEAPON_NAMES@, s@),
        },
{
    find(WEAPON_NAMES.as_slice(), s)
}

pub fn spell_list_index_exec(s: &str) -> (r: Option<usize>)
    ensures
        match r {
            Some(i) => spell_list_index(s@) == Some(i as int) && i < 8 && SPELL_LISTS@[i as int]@ == s@,
            None => spell_list_index(s@) is None && !in_list(SPELL_LISTS@, s@),
        },
{
    find(SPELL_LISTS.as_slice(), s)
}

/// The skill options of the class at index `i`.
pub open spec fn class_skill_options(i: int) -> Seq<&'static str> {
    if i == 0 {
        BARBARIAN_SKILLS@
    } else if i == 1 {
        SKILLS@
    } else if i == 2 {
        CLERIC_SKILLS@
    } else if i == 3 {
        DRUID_SKILLS@
    } else if i == 4 {
        FIGHTER_SKILLS@
    } else if i == 5 {
        MONK_SKILLS@
    } else if i == 6 {
        PALADIN_SKILLS@
    } else if i == 7 {
        RANGER_SKILLS@
    } else if i == 8 {
        ROGUE_SKILLS@
    } else if i == 9 {
        SORCERER_SKILLS@
    } else if i == 10 {
        WARLOCK_SKILLS@
    } else {
        WIZARD_SKILLS@
    }
}

pub fn class_skill_options_exec(i: usize) -> (r: &'static [&'static str])
    ensures
        r@ == class_skill_options(i as int),
{
    if i == 0 {
        BARBARIAN_SKILLS.as_slice()
    } else if i == 1 {
        SKILLS.as_slice()
    } else if i == 2 {
        CLERIC_SKILLS.as_slice()
    } else if i == 3 {
        DRUID_SKILLS.as_slice()
    } else if i == 4 {
        FIGHTER_SKILLS.as_slice()
    } else if i == 5 {
        MONK_SKILLS.as_slice()
    } else if i == 6 {
        PALADIN_SKILLS.as_slice()
    } else if i == 7 {
        RANGER_SKILLS.as_slice()
    } else if i == 8 {
        ROGUE_SKILLS.as_slice()
    } else if i == 9 {
        SORCERER_SKILLS.as_slice()
    } else if i == 10 {
        WARLOCK_SKILLS.as_slice()
    } else {
        WIZARD_SKILLS.as_slice()
    }
}

/// Cantrips of the spell list at index `i` of `SPELL_LISTS`.
pub open spec fn list_cantrips(i: int) -> Seq<&'static str> {
    if i == 0 {
        BARD_CANTRIPS@
    } else if i == 1 {
        CLERIC_CANTRIPS@
    } else if i == 2 {
        DRUID_CANTRIPS@
    } else if i == 5 {
        SORCERER_CANTRIPS@
    } else if i == 6 {
        WARLOCK_CANTRIPS@
    } else if i == 7 {
        WIZARD_CANTRIPS@
    } else {
        EMPTY@
    }
}

/// Level-1 spells of the spell list at index `i` of `SPELL_LISTS`.
pub open spec fn list_level_one(i: int) -> Seq<&'static str> {
    if i == 0 {
        BARD_LEVEL_ONE@
    } else if i == 1 {
        CLERIC_LEVEL_ONE@
    } else if i == 2 {
        DRUID_LEVEL_ONE@
    } else if i == 3 {
        PALADIN_LEVEL_ONE@
    } else if i == 4 {
        RANGER_LEVEL_ONE@
    } else if i == 5 {
        SORCERER_LEVEL_ONE@
    } else if i == 6 {
        WARLOCK_LEVEL_ONE@
    } else {
        WIZARD_LEVEL_ONE@
    }
}

pub fn list_cantrips_exec(i: usize) -> (r: &'static [&'static str])
    ensures
        r@ == list_cantrips(i as int),
{
    if i == 0 {
        BARD_CANTRIPS.as_slice()
    } else if i == 1 {
        CLERIC_CANTRIPS.as_slice()
    } else if i == 2 {
        DRUID_CANTRIPS.as_slice()
    } else if i == 5 {
        SORCERER_CANTRIPS.as_slice()
    } else if i == 6 {
        WARLOCK_CANTRIPS.as_slice()
    } else if i == 7 {
        WIZARD_CANTRIPS.as_slice()
    } else {
        EMPTY.as_slice()
    }
}

pub fn list_level_one_exec(i: usize) -> (r: &'static [&'static str])
    ensures
        r@ == list_level_one(i as int),
{
    if i == 0 {
        BARD_LEVEL_ONE.as_slice()
    } else if i == 1 {
        CLERIC_LEVEL_ONE.as_slice()
    } else if i == 2 {
        DRUID_LEVEL_ONE.as_slice()
    } else if i == 3 {
        PALADIN_LEVEL_ONE.as_slice()
    } else if i == 4 {
        RANGER_LEVEL_ONE.as_slice()
    } else if i == 5 {
        SORCERER_LEVEL_ONE.as_slice()
    } else if i == 6 {
        WARLOCK_LEVEL_ONE.as_slice()
    } else {
        WIZARD_LEVEL_ONE.as_slice()
    }
}

/// `s` names an SRD spell of the given level on the named list.
pub open spec fn srd_spell_on_list(s: Seq<char>, list: Seq<char>, level: int) -> bool {
    match spell_list_index(list) {
        Some(i) => if level == 0 {
            in_list(list_cantrips(i), s)
        } else if level == 1 {
            in_list(list_level_one(i), s)
        } else {
            false
        },
        None => false,
    }
}

/// `s` is a cantrip or level-1 spell of the list at index `i`.
pub open spec fn on_catalog_list(i: int, s: Seq<char>) -> bool {
    in_list(list_cantrips(i), s) || in_list(list_level_one(i), s)
}

/// `s` names a spell of the built-in catalog.
pub open spec fn is_srd_spell(s: Seq<char>) -> bool {
    exists|i: int| 0 <= i < 8 && #[trigger] on_catalog_list(i, s)
}

pub fn srd_spell_on_list_exec(s: &str, list: &str, level: u8) -> (r: bool)
    ensures
        r == srd_spell_on_list(s@, list@, level as int),
{
    match spell_list_index_exec(list) {
        Some(i) => if level == 0 {
            list_contains(list_cantrips_exec(i), s)
        } else if level == 1 {
            list_contains(list_level_one_exec(i), s)
        } else {
            false
        },
        None => false,
    }
}

pub fn is_srd_spell_exec(s: &str) -> (r: bool)
    ensures
        r == is_srd_spell(s@),
{
    let mut i: usize = 0;
    while i < 8
        invariant
            i <= 8,
            forall|j: int| 0 <= j < i ==> !#[trigger] on_catalog_list(j, s@),
        decreases 8 - i,
    {
        if list_contains(list_cantrips_exec(i), s) || list_contains(list_level_one_exec(i), s) {
            assert(on_catalog_list(i as int, s@));
            return true;
        }
        i = i + 1;
    }
    false
}

/// Spells a class always has prepared, so they cannot be chosen again.
pub open spec fn always_prepared(class: Seq<char>) -> Seq<&'static str> {
    if class == CLASS_NAMES@[7]@ {
        RANGER_ALWAYS_PREPARED@
    } else {
        EMPTY@
    }
}

pub fn always_prepared_exec(class: &str) -> (r: &'static [&'static str])
    ensures
        r@ == always_prepared(class@),
{
    if str_eq(class, CLASS_NAMES[7]) {
        RANGER_ALWAYS_PREPARED.as_slice()
    } else {
        EMPTY.as_slice()
    }
}

/// `s` is a skill of the SRD.
pub open spec fn is_skill(s: Seq<char>) -> bool {
    in_list(SKILLS@, s)
}

/// `s` is a tool of the SRD: an artisan's tool, a musical instrument or another kit.
pub open spec fn is_tool(s: Seq<char>) -> bool {
    in_list(ARTISAN_TOOLS@, s) || in_list(MUSICAL_INSTRUMENTS@, s) || in_list(OTHER_TOOLS@, s)
}

pub fn is_skill_exec(s: &str) -> (r: bool)
    ensures
        r == is_skill(s@),
{
    list_contains(SKILLS.as_slice(), s)
}

pub fn is_tool_exec(s: &str) -> (r: bool)
    ensures
        r == is_tool(s@),
{
    list_contains(ARTISAN_TOOLS.as_slice(), s) || list_contains(MUSICAL_INSTRUMENTS.as_slice(), s)
        || list_contains(OTHER_TOOLS.as_slice(), s)
}

/// The ability a skill uses.
pub fn skill_ability(s: &str) -> (r: Option<&'static str>)
    ensures
        match r {
            Some(a) => is_skill(s@) && a == SKILL_ABILITIES@[index_of(SKILLS@, s@)->0],
            None => !is_skill(s@),
        },
{
    match find(SKILLS.as_slice(), s) {
        Some(i) => Some(SKILL_ABILITIES[i]),
        None => None,
    }
}

/// `s` is a list from which Magic Initiate may take spells.
pub open spec fn is_magic_initiate_list(s: Seq<char>) -> bool {
    s == SPELL_LISTS@[1]@ || s == SPELL_LISTS@[2]@ || s == SPELL_LISTS@[7]@
}

pub fn is_magic_initiate_list_exec(s: &str) -> (r: bool)
    ensures
        r == is_magic_initiate_list(s@),
{
    str_eq(s, SPELL_LISTS[1]) || str_eq(s, SPELL_LISTS[2]) || str_eq(s, SPELL_LISTS[7])
}

/// `s` names an SRD armor.
pub open spec fn is_srd_armor(s: Seq<char>) -> bool {
    in_list(ARMOR_NAMES@, s)
}

/// The cost of a score under the 27-point buy, for scores 8 to 15.
pub open spec fn point_buy_cost(score: int) -> Option<int> {
    if 8 <= score <= 13 {
        Some(score - 8)
    } else if score == 14 {
        Some(7)
    } else if score == 15 {
        Some(9)
    } else {
        None
    }
}

pub fn point_buy_cost_exec(score: u8) -> (r: Option<u8>)
    ensures
        match r {
            Some(c) => point_buy_cost(score as int) == Some(c as int),
            None => point_buy_cost(score as int) is None,
        },
{
    if 8 <= score && score <= 13 {
        Some(score - 8)
    } else if score == 14 {
        Some(7)
    } else if score == 15 {
        Some(9)
    } else {
        None
    }
}

/// Item names and counts of a class package: `B` exists for the Fighter only.
pub open spec fn class_package(class: int, option: Seq<char>) -> Option<(Seq<&'static str>, Seq<u16>, u16)> {
    if option == "A"@ {
        Some(
            if class == 0 {
                (BARBARIAN_PACKAGE@, BARBARIAN_PACKAGE_COUNTS@, CLASS_PACKAGE_GOLD[0])
            } else if class == 1 {
                (BARD_PACKAGE@, BARD_PACKAGE_COUNTS@, CLASS_PACKAGE_GOLD[1])
            } else if class == 2 {
                (CLERIC_PACKAGE@, CLERIC_PACKAGE_COUNTS@, CLASS_PACKAGE_GOLD[2])
            } else if class == 3 {
                (DRUID_PACKAGE@, DRUID_PACKAGE_COUNTS@, CLASS_PACKAGE_GOLD[3])
            } else if class == 4 {
                (FIGHTER_PACKAGE@, FIGHTER_PACKAGE_COUNTS@, CLASS_PACKAGE_GOLD[4])
            } else if class == 5 {
                (MONK_PACKAGE@, MONK_PACKAGE_COUNTS@, CLASS_PACKAGE_GOLD[5])
            } else if class == 6 {
                (PALADIN_PACKAGE@, PALADIN_PACKAGE_COUNTS@, CLASS_PACKAGE_GOLD[6])
            } else if class == 7 {
                (RANGER_PACKAGE@, RANGER_PACKAGE_COUNTS@, CLASS_PACKAGE_GOLD[7])
            } else if class == 8 {
                (ROGUE_PACKAGE@, ROGUE_PACKAGE_COUNTS@, CLASS_PACKAGE_GOLD[8])
            } else if class == 9 {
                (SORCERER_PACKAGE@, SORCERER_PACKAGE_COUNTS@, CLASS_PACKAGE_GOLD[9])
            } else if class == 10 {
                (WARLOCK_PACKAGE@, WARLOCK_PACKAGE_COUNTS@, CLASS_PACKAGE_GOLD[10])
            } else {
                (WIZARD_PACKAGE@, WIZARD_PACKAGE_COUNTS@, CLASS_PACKAGE_GOLD[11])
            },
        )
    } else if option == "B"@ && class == 4 {
        Some((FIGHTER_SECOND_PACKAGE@, FIGHTER_SECOND_PACKAGE_COUNTS@, FIGHTER_SECOND_PACKAGE_GOLD))
    } else {
        None
    }
}

pub fn class_package_exec(class: usize, option: &str) -> (r: Option<(&'static [&'static str], &'static [u16], u16)>)
    requires
        class < 12,
    ensures
        match r {
            Some(p) => class_package(class as int, option@) == Some((p.0@, p.1@, p.2)),
            None => class_package(class as int, option@) is None,
        },
{
    if str_eq(option, "A") {
        Some(
            if class == 0 {
                (BARBARIAN_PACKAGE.as_slice(), BARBARIAN_PACKAGE_COUNTS.as_slice(), CLASS_PACKAGE_GOLD[0])
            } else if class == 1 {
                (BARD_PACKAGE.as_slice(), BARD_PACKAGE_COUNTS.as_slice(), CLASS_PACKAGE_GOLD[1])
            } else if class == 2 {
                (CLERIC_PACKAGE.as_slice(), CLERIC_PACKAGE_COUNTS.as_slice(), CLASS_PACKAGE_GOLD[2])
            } else if class == 3 {
                (DRUID_PACKAGE.as_slice(), DRUID_PACKAGE_COUNTS.as_slice(), CLASS_PACKAGE_GOLD[3])
            } else if class == 4 {
                (FIGHTER_PACKAGE.as_slice(), FIGHTER_PACKAGE_COUNTS.as_slice(), CLASS_PACKAGE_GOLD[4])
            } else if class == 5 {
                (MONK_PACKAGE.as_slice(), MONK_PACKAGE_COUNTS.as_slice(), CLASS_PACKAGE_GOLD[5])
            } else if class == 6 {
                (PALADIN_PACKAGE.as_slice(), PALADIN_PACKAGE_COUNTS.as_slice(), CLASS_PACKAGE_GOLD[6])
            } else if class == 7 {
                (RANGER_PACKAGE.as_slice(), RANGER_PACKAGE_COUNTS.as_slice(), CLASS_PACKAGE_GOLD[7])
            } else if class == 8 {
                (ROGUE_PACKAGE.as_slice(), ROGUE_PACKAGE_COUNTS.as_slice(), CLASS_PACKAGE_GOLD[8])
            } else if class == 9 {
                (SORCERER_PACKAGE.as_slice(), SORCERER_PACKAGE_COUNTS.as_slice(), CLASS_PACKAGE_GOLD[9])
            } else if class == 10 {
                (WARLOCK_PACKAGE.as_slice(), WARLOCK_PACKAGE_COUNTS.as_slice(), CLASS_PACKAGE_GOLD[10])
            } else {
                (WIZARD_PACKAGE.as_slice(), WIZARD_PACKAGE_COUNTS.as_slice(), CLASS_PACKAGE_GOLD[11])
            },
        )
    } else if str_eq(option, "B") && class == 4 {
        Some(
            (
                FIGHTER_SECOND_PACKAGE.as_slice(),
                FIGHTER_SECOND_PACKAGE_COUNTS.as_slice(),
                FIGHTER_SECOND_PACKAGE_GOLD,
            ),
        )
    } else {
        None
    }
}

/// Item names and counts of a background's package.
pub open spec fn background_package(i: int) -> (Seq<&'static str>, Seq<u16>) {
    if i == 0 {
        (ACOLYTE_PACKAGE@, ACOLYTE_PACKAGE_COUNTS@)
    } else if i == 1 {
        (CRIMINAL_PACKAGE@, CRIMINAL_PACKAGE_COUNTS@)
    } else if i == 2 {
        (SAGE_PACKAGE@, SAGE_PACKAGE_COUNTS@)
    } else {
        (SOLDIER_PACKAGE@, SOLDIER_PACKAGE_COUNTS@)
    }
}

pub fn background_package_exec(i: usize) -> (r: (&'static [&'static str], &'static [u16]))
    ensures
        (r.0@, r.1@) == background_package(i as int),
{
    if i == 0 {
        (ACOLYTE_PACKAGE.as_slice(), ACOLYTE_PACKAGE_COUNTS.as_slice())
    } else if i == 1 {
        (CRIMINAL_PACKAGE.as_slice(), CRIMINAL_PACKAGE_COUNTS.as_slice())
    } else if i == 2 {
        (SAGE_PACKAGE.as_slice(), SAGE_PACKAGE_COUNTS.as_slice())
    } else {
        (SOLDIER_PACKAGE.as_slice(), SOLDIER_PACKAGE_COUNTS.as_slice())
    }
}

} // verus!
