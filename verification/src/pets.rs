//! The built-in pet catalog.

use vstd::prelude::*;

use crate::text::str_equal;

verus! {

pub const DEFAULT_FRAME_WIDTH: u32 = 192;

pub const DEFAULT_FRAME_HEIGHT: u32 = 208;

pub const DEFAULT_FRAME_COLUMNS: u32 = 8;

pub const DEFAULT_FRAME_ROWS: u32 = 9;

pub const SPRITESHEET_WIDTH: u32 = DEFAULT_FRAME_WIDTH * DEFAULT_FRAME_COLUMNS;

pub const SPRITESHEET_HEIGHT: u32 = DEFAULT_FRAME_HEIGHT * DEFAULT_FRAME_ROWS;

/// A pet that ships with the application.
#[derive(Clone, Copy, Debug, PartialEq, Eq)]
pub struct BuiltinPet {
    pub id: &'static str,
    pub display_name: &'static str,
    pub description: &'static str,
    pub spritesheet_file: &'static str,
}

/// A pet as a value.
pub struct PetView {
    pub id: Seq<char>,
    pub display_name: Seq<char>,
    pub description: Seq<char>,
    pub spritesheet_file: Seq<char>,
}

impl View for BuiltinPet {
    type V = PetView;

    open spec fn view(&self) -> PetView {
        PetView {
            id: self.id@,
            display_name: self.display_name@,
            description: self.description@,
            spritesheet_file: self.spritesheet_file@,
        }
    }
}

pub open spec fn pet(
    id: &'static str,
    display_name: &'static str,
    description: &'static str,
    spritesheet_file: &'static str,
) -> PetView {
    PetView {
        id: id@,
        display_name: display_name@,
        description: description@,
        spritesheet_file: spritesheet_file@,
    }
}

/// The built-in pets, in catalog order.
pub open spec fn builtin_pet_catalog() -> Seq<PetView> {
    seq![
        pet("codex", "Codex", "Codex 的经典伙伴", "codex-spritesheet-v4.webp"),
        pet("dewey", "Dewey", "一只整洁的小鸭，陪你度过平静的工作时光", "dewey-spritesheet-v4.webp"),
        pet("fireball", "Fireball", "为快速迭代注入热力", "fireball-spritesheet-v4.webp"),
        pet("rocky", "Rocky", "变更再大，也能稳如磐石", "rocky-spritesheet-v4.webp"),
        pet("seedy", "Seedy", "让新想法萌发的小小绿芽", "seedy-spritesheet-v4.webp"),
        pet("stacky", "Stacky", "为深度工作保持平衡的堆栈", "stacky-spritesheet-v4.webp"),
        pet("bsod", "BSOD", "一只小小的蓝屏精灵", "bsod-spritesheet-v4.webp"),
        pet("null-signal", "Null Signal", "来自虚空的安静信号", "null-signal-spritesheet-v4.webp"),
    ]
}

/// The built-in pets, in catalog order.
pub fn builtin_pets() -> (pets: Vec<BuiltinPet>)
    ensures
        pets@.map_values(|p: BuiltinPet| p@) == builtin_pet_catalog(),
{
    let pets = vec![
        BuiltinPet {
            id: "codex",
            display_name: "Codex",
            description: "Codex 的经典伙伴",
            spritesheet_file: "codex-spritesheet-v4.webp",
        },
        BuiltinPet {
            id: "dewey",
            display_name: "Dewey",
            description: "一只整洁的小鸭，陪你度过平静的工作时光",
            spritesheet_file: "dewey-spritesheet-v4.webp",
        },
        BuiltinPet {
            id: "fireball",
            display_name: "Fireball",
            description: "为快速迭代注入热力",
            spritesheet_file: "fireball-spritesheet-v4.webp",
        },
        BuiltinPet {
            id: "rocky",
            display_name: "Rocky",
            description: "变更再大，也能稳如磐石",
            spritesheet_file: "rocky-spritesheet-v4.webp",
        },
        BuiltinPet {
            id: "seedy",
            display_name: "Seedy",
            description: "让新想法萌发的小小绿芽",
            spritesheet_file: "seedy-spritesheet-v4.webp",
        },
        BuiltinPet {
            id: "stacky",
            display_name: "Stacky",
            description: "为深度工作保持平衡的堆栈",
            spritesheet_file: "stacky-spritesheet-v4.webp",
        },
        BuiltinPet {
            id: "bsod",
            display_name: "BSOD",
            description: "一只小小的蓝屏精灵",
            spritesheet_file: "bsod-spritesheet-v4.webp",
        },
        BuiltinPet {
            id: "null-signal",
            display_name: "Null Signal",
            description: "来自虚空的安静信号",
            spritesheet_file: "null-signal-spritesheet-v4.webp",
        },
    ];
    assert(pets@.map_values(|p: BuiltinPet| p@) =~= builtin_pet_catalog());
    pets
}

/// The built-in pet with the given id, if there is one.
pub fn builtin_pet(id: &str) -> (found: Option<BuiltinPet>)
    ensures
        found is None <==> forall|i: int|
            0 <= i < builtin_pet_catalog().len() ==> #[trigger] builtin_pet_catalog()[i].id != id@,
        found matches Some(p) ==> p@.id == id@ && builtin_pet_catalog().contains(p@),
{
    let pets = builtin_pets();
    let ghost cat = builtin_pet_catalog();
    let mut i: usize = 0;
    while i < pets.len()
        invariant
            pets@.map_values(|p: BuiltinPet| p@) == cat,
            cat == builtin_pet_catalog(),
            i <= pets.len(),
            forall|j: int| 0 <= j < i ==> #[trigger] cat[j].id != id@,
        decreases pets.len() - i,
    {
        assert(cat[i as int] == pets@[i as int]@);
        if str_equal(pets[i].id, id) {
            let p = pets[i];
            assert(cat.contains(p@));
            assert(cat[i as int].id == id@);
            return Some(p);
        }
        i = i + 1;
    }
    assert(pets@.len() == cat.len());
    None
}

/// Law: no two built-in pets share an id, so an id names at most one pet.
pub proof fn lemma_builtin_pet_ids_distinct()
    ensures
        forall|i: int, j: int|
            0 <= i < j < builtin_pet_catalog().len() ==> #[trigger] builtin_pet_catalog()[i].id
                != #[trigger] builtin_pet_catalog()[j].id,
{
    reveal_strlit("codex");
    reveal_strlit("dewey");
    reveal_strlit("fireball");
    reveal_strlit("rocky");
    reveal_strlit("seedy");
    reveal_strlit("stacky");
    reveal_strlit("bsod");
    reveal_strlit("null-signal");
    let cat = builtin_pet_catalog();
    assert forall|i: int, j: int| 0 <= i < j < cat.len() implies #[trigger] cat[i].id != #[trigger] cat[j].id by {
        if cat[i].id == cat[j].id {
            assert(cat[i].id[0] == cat[j].id[0]);
            assert(cat[i].id[1] == cat[j].id[1]);
        }
    }
}

/// Law: every built-in pet's spritesheet is named after its id, as
/// `<id>-spritesheet-v4.webp`.
pub proof fn lemma_spritesheet_named_after_id()
    ensures
        forall|i: int|
            0 <= i < builtin_pet_catalog().len() ==> #[trigger] builtin_pet_catalog()[i].spritesheet_file
                == builtin_pet_catalog()[i].id + "-spritesheet-v4.webp"@,
{
    reveal_strlit("-spritesheet-v4.webp");
    reveal_strlit("codex");
    reveal_strlit("codex-spritesheet-v4.webp");
    reveal_strlit("dewey");
    reveal_strlit("dewey-spritesheet-v4.webp");
    reveal_strlit("fireball");
    reveal_strlit("fireball-spritesheet-v4.webp");
    reveal_strlit("rocky");
    reveal_strlit("rocky-spritesheet-v4.webp");
    reveal_strlit("seedy");
    reveal_strlit("seedy-spritesheet-v4.webp");
    reveal_strlit("stacky");
    reveal_strlit("stacky-spritesheet-v4.webp");
    reveal_strlit("bsod");
    reveal_strlit("bsod-spritesheet-v4.webp");
    reveal_strlit("null-signal");
    reveal_strlit("null-signal-spritesheet-v4.webp");
    let cat = builtin_pet_catalog();
    assert forall|i: int| 0 <= i < cat.len() implies #[trigger] cat[i].spritesheet_file == cat[i].id
        + "-spritesheet-v4.webp"@ by {
        assert(cat[i].spritesheet_file =~= cat[i].id + "-spritesheet-v4.webp"@);
    }
}

/// Law: a spritesheet is the frame grid: its width is the frame width times
/// the columns and its height the frame height times the rows.
pub proof fn lemma_spritesheet_is_frame_grid()
    ensures
        SPRITESHEET_WIDTH == DEFAULT_FRAME_WIDTH * DEFAULT_FRAME_COLUMNS,
        SPRITESHEET_HEIGHT == DEFAULT_FRAME_HEIGHT * DEFAULT_FRAME_ROWS,
        SPRITESHEET_WIDTH == 1536,
        SPRITESHEET_HEIGHT == 1872,
{
}

/// The character of an id that stands for a character of a display name:
/// capitals become small letters and spaces become hyphens.
pub open spec fn id_char(c: char) -> char {
    if 'A' <= c && c <= 'Z' {
        ((c as u32) + 32) as char
    } else if c == ' ' {
        '-'
    } else {
        c
    }
}

/// The id that a display name reads as: in small letters, with hyphens for spaces.
pub open spec fn id_of_display_name(name: Seq<char>) -> Seq<char> {
    name.map_values(|c: char| id_char(c))
}

/// Law: every built-in pet's id is its display name in small letters with
/// hyphens for spaces ("Null Signal" is `null-signal`, "BSOD" is `bsod`).
pub proof fn lemma_id_reads_display_name()
    ensures
        forall|i: int|
            0 <= i < builtin_pet_catalog().len() ==> #[trigger] builtin_pet_catalog()[i].id
                == id_of_display_name(builtin_pet_catalog()[i].display_name),
{
    reveal_strlit("codex");
    reveal_strlit("Codex");
    reveal_strlit("dewey");
    reveal_strlit("Dewey");
    reveal_strlit("fireball");
    reveal_strlit("Fireball");
    reveal_strlit("rocky");
    reveal_strlit("Rocky");
    reveal_strlit("seedy");
    reveal_strlit("Seedy");
    reveal_strlit("stacky");
    reveal_strlit("Stacky");
    reveal_strlit("bsod");
    reveal_strlit("BSOD");
    reveal_strlit("null-signal");
    reveal_strlit("Null Signal");
    let cat = builtin_pet_catalog();
    assert forall|i: int| 0 <= i < cat.len() implies #[trigger] cat[i].id == id_of_display_name(
        cat[i].display_name,
    ) by {
        assert(cat[i].id =~= id_of_display_name(cat[i].display_name));
    }
}

/// Law: what each id is shown as, pet by pet: its display name and its description.
pub proof fn lemma_pet_by_id()
    ensures
        forall|i: int|
            0 <= i < builtin_pet_catalog().len() && #[trigger] builtin_pet_catalog()[i].id == "codex"@
                ==> builtin_pet_catalog()[i].display_name == "Codex"@ && builtin_pet_catalog()[i].description
                == "Codex 的经典伙伴"@,
        forall|i: int|
            0 <= i < builtin_pet_catalog().len() && #[trigger] builtin_pet_catalog()[i].id == "dewey"@
                ==> builtin_pet_catalog()[i].display_name == "Dewey"@ && builtin_pet_catalog()[i].description
                == "一只整洁的小鸭，陪你度过平静的工作时光"@,
        forall|i: int|
            0 <= i < builtin_pet_catalog().len() && #[trigger] builtin_pet_catalog()[i].id == "fireball"@
                ==> builtin_pet_catalog()[i].display_name == "Fireball"@ && builtin_pet_catalog()[i].description
                == "为快速迭代注入热力"@,
        forall|i: int|
            0 <= i < builtin_pet_catalog().len() && #[trigger] builtin_pet_catalog()[i].id == "rocky"@
                ==> builtin_pet_catalog()[i].display_name == "Rocky"@ && builtin_pet_catalog()[i].description
                == "变更再大，也能稳如磐石"@,
        forall|i: int|
            0 <= i < builtin_pet_catalog().len() && #[trigger] builtin_pet_catalog()[i].id == "seedy"@
                ==> builtin_pet_catalog()[i].display_name == "Seedy"@ && builtin_pet_catalog()[i].description
                == "让新想法萌发的小小绿芽"@,
        forall|i: int|
            0 <= i < builtin_pet_catalog().len() && #[trigger] builtin_pet_catalog()[i].id == "stacky"@
                ==> builtin_pet_catalog()[i].display_name == "Stacky"@ && builtin_pet_catalog()[i].description
                == "为深度工作保持平衡的堆栈"@,
        forall|i: int|
            0 <= i < builtin_pet_catalog().len() && #[trigger] builtin_pet_catalog()[i].id == "bsod"@
                ==> builtin_pet_catalog()[i].display_name == "BSOD"@ && builtin_pet_catalog()[i].description
                == "一只小小的蓝屏精灵"@,
        forall|i: int|
            0 <= i < builtin_pet_catalog().len() && #[trigger] builtin_pet_catalog()[i].id == "null-signal"@
                ==> builtin_pet_catalog()[i].display_name == "Null Signal"@ && builtin_pet_catalog()[i].description
                == "来自虚空的安静信号"@,
{
    lemma_builtin_pet_ids_distinct();
    let cat = builtin_pet_catalog();
    assert(cat[0].id == "codex"@);
    assert(cat[1].id == "dewey"@);
    assert(cat[2].id == "fireball"@);
    assert(cat[3].id == "rocky"@);
    assert(cat[4].id == "seedy"@);
    assert(cat[5].id == "stacky"@);
    assert(cat[6].id == "bsod"@);
    assert(cat[7].id == "null-signal"@);
}

} // verus!
