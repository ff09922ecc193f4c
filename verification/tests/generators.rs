use rotate_enum::GenError;
use rotate_enum::TypeDecl;
use rotate_enum::VariantDecl;
use rotate_enum::iter_source;
use rotate_enum::rotate_source;
use rotate_enum::shift_source;

fn direction_decl() -> TypeDecl {
    TypeDecl::Enum {
        name: String::from("Direction"),
        variants: vec![
            VariantDecl { name: String::from("Up"), has_data: false },
            VariantDecl { name: String::from("Left"), has_data: false },
            VariantDecl { name: String::from("Down"), has_data: false },
            VariantDecl { name: String::from("Right"), has_data: false },
        ],
    }
}

fn direction_stream() -> proc_macro2::TokenStream {
    "enum Direction { Up, Left, Down, Right }".parse().unwrap()
}

fn struct_stream() -> proc_macro2::TokenStream {
    "struct Direction { x: u32 }".parse().unwrap()
}

fn rotate_expected() -> String {
    [
        "impl Direction {\n",
        "    pub fn next(self) -> Self {\n",
        "        match self {\n",
        "            Self::Up => Self::Left,\n",
        "            Self::Left => Self::Down,\n",
        "            Self::Down => Self::Right,\n",
        "            Self::Right => Self::Up,\n",
        "        }\n",
        "    }\n",
        "    pub fn prev(self) -> Self {\n",
        "        match self {\n",
        "            Self::Up => Self::Right,\n",
        "            Self::Left => Self::Up,\n",
        "            Self::Down => Self::Left,\n",
        "            Self::Right => Self::Down,\n",
        "        }\n",
        "    }\n",
        "}\n",
    ]
    .join("")
}

fn shift_expected() -> String {
    [
        "impl Direction {\n",
        "    pub fn next(self) -> Option<Self> {\n",
        "        match self {\n",
        "            Self::Up => Some(Self::Left),\n",
        "            Self::Left => Some(Self::Down),\n",
        "            Self::Down => Some(Self::Right),\n",
        "            Self::Right => None,\n",
        "        }\n",
        "    }\n",
        "    pub fn prev(self) -> Option<Self> {\n",
        "        match self {\n",
        "            Self::Up => None,\n",
        "            Self::Left => Some(Self::Up),\n",
        "            Self::Down => Some(Self::Left),\n",
        "            Self::Right => Some(Self::Down),\n",
        "        }\n",
        "    }\n",
        "}\n",
    ]
    .join("")
}

fn iter_expected() -> String {
    [
        "struct DirectionIterator(Option<Direction>);\n",
        "\n",
        "impl DirectionIterator {\n",
        "    fn new() -> Self {\n",
        "        Self(Some(Direction::Up))\n",
        "    }\n",
        "}\n",
        "\n",
        "impl Iterator for DirectionIterator {\n",
        "    type Item = Direction;\n",
        "    fn next(&mut self) -> Option<Self::Item> {\n",
        "        let ret = self.0.clone();\n",
        "        self.0 = match self.0 {\n",
        "            Some(Direction::Up) => Some(Direction::Left),\n",
        "            Some(Direction::Left) => Some(Direction::Down),\n",
        "            Some(Direction::Down) => Some(Direction::Right),\n",
        "            Some(Direction::Right) => None,\n",
        "            None => None,\n",
        "        };\n",
        "        ret\n",
        "    }\n",
        "}\n",
        "\n",
        "impl Direction {\n",
        "    fn iter(&self) -> DirectionIterator {\n",
        "        DirectionIterator(Some(self.clone()))\n",
        "    }\n",
        "}\n",
    ]
    .join("")
}

#[test]
fn rotate_emits_expected_text() {
    let text = rotate_source(&direction_decl()).unwrap();
    assert_eq!(text, rotate_expected());
}

#[test]
fn rotate_from_stream_matches_decl_path() {
    let from_stream = rotate_enum::rotate_enum(direction_stream()).unwrap();
    assert_eq!(from_stream, rotate_expected());
}

#[test]
fn shift_emits_expected_text() {
    let text = shift_source(&direction_decl()).unwrap();
    assert_eq!(text, shift_expected());
    let from_stream = rotate_enum::shift_enum(direction_stream()).unwrap();
    assert_eq!(from_stream, shift_expected());
}

#[test]
fn iter_emits_expected_text() {
    let text = iter_source(&direction_decl()).unwrap();
    assert_eq!(text, iter_expected());
    let from_stream = rotate_enum::iter_enum(direction_stream()).unwrap();
    assert_eq!(from_stream, iter_expected());
}

#[test]
fn emitted_units_are_valid_token_streams() {
    let rotate_text = rotate_source(&direction_decl()).unwrap();
    let shift_text = shift_source(&direction_decl()).unwrap();
    let iter_text = iter_source(&direction_decl()).unwrap();
    assert!(rotate_text.parse::<proc_macro2::TokenStream>().is_ok());
    assert!(shift_text.parse::<proc_macro2::TokenStream>().is_ok());
    assert!(iter_text.parse::<proc_macro2::TokenStream>().is_ok());
}

#[test]
fn non_enum_is_rejected_by_all_generators() {
    assert_eq!(rotate_enum::rotate_enum(struct_stream()), Err(GenError::NotAnEnum));
    assert_eq!(rotate_enum::shift_enum(struct_stream()), Err(GenError::NotAnEnum));
    assert_eq!(rotate_enum::iter_enum(struct_stream()), Err(GenError::NotAnEnum));
    assert_eq!(rotate_source(&TypeDecl::NotEnum), Err(GenError::NotAnEnum));
    assert_eq!(shift_source(&TypeDecl::NotEnum), Err(GenError::NotAnEnum));
    assert_eq!(iter_source(&TypeDecl::NotEnum), Err(GenError::NotAnEnum));
}

#[test]
fn data_carrying_variant_is_rejected() {
    let decl = TypeDecl::Enum {
        name: String::from("Shape"),
        variants: vec![
            VariantDecl { name: String::from("Dot"), has_data: false },
            VariantDecl { name: String::from("Circle"), has_data: true },
        ],
    };
    assert_eq!(rotate_source(&decl), Err(GenError::UnsupportedVariantShape));
    assert_eq!(shift_source(&decl), Err(GenError::UnsupportedVariantShape));
    assert_eq!(iter_source(&decl), Err(GenError::UnsupportedVariantShape));

    let tuple_stream: proc_macro2::TokenStream = "enum Shape { Dot, Circle(u32) }".parse().unwrap();
    assert_eq!(rotate_enum::rotate_enum(tuple_stream), Err(GenError::UnsupportedVariantShape));
    let struct_variant_stream: proc_macro2::TokenStream =
        "enum Shape { Dot, Rect { w: u32, h: u32 } }".parse().unwrap();
    assert_eq!(
        rotate_enum::shift_enum(struct_variant_stream),
        Err(GenError::UnsupportedVariantShape)
    );
}

#[test]
fn empty_enum_is_rejected_by_iteration_only() {
    let decl = TypeDecl::Enum { name: String::from("Never"), variants: vec![] };
    assert_eq!(iter_source(&decl), Err(GenError::EmptyVariantList));
    assert!(shift_source(&decl).is_ok());
    let rotate_text = rotate_source(&decl).unwrap();
    let expected = [
        "impl Never {\n",
        "    pub fn next(self) -> Self {\n",
        "        match self {\n",
        "        }\n",
        "    }\n",
        "    pub fn prev(self) -> Self {\n",
        "        match self {\n",
        "        }\n",
        "    }\n",
        "}\n",
    ]
    .join("");
    assert_eq!(rotate_text, expected);
    let empty_stream: proc_macro2::TokenStream = "enum Never {}".parse().unwrap();
    assert_eq!(rotate_enum::iter_enum(empty_stream), Err(GenError::EmptyVariantList));
}

#[test]
fn single_variant_rotate_maps_to_itself_in_text() {
    let decl = TypeDecl::Enum {
        name: String::from("Only"),
        variants: vec![VariantDecl { name: String::from("One"), has_data: false }],
    };
    let rotate_text = rotate_source(&decl).unwrap();
    assert!(rotate_text.contains("            Self::One => Self::One,\n"));
    let prev_half = rotate_text.split("pub fn prev").nth(1).unwrap();
    assert!(prev_half.contains("            Self::One => Self::One,\n"));
    let shift_text = shift_source(&decl).unwrap();
    assert!(shift_text.contains("            Self::One => None,\n"));
}

#[test]
fn diagnostic_messages_name_macro_and_requirement() {
    assert_eq!(
        rotate_enum::decl::diagnostic_message("RotateEnum", &GenError::NotAnEnum),
        "derive(RotateEnum) must be applied to an enum"
    );
    assert_eq!(
        rotate_enum::decl::diagnostic_message("ShiftEnum", &GenError::UnsupportedVariantShape),
        "derive(ShiftEnum) does not support variants with associated data"
    );
    assert_eq!(
        rotate_enum::decl::diagnostic_message("IterEnum", &GenError::EmptyVariantList),
        "derive(IterEnum) expects at least one variant in enum"
    );
}

#[test]
fn collector_returns_names_in_declaration_order() {
    let (name, names) =
        rotate_enum::decl::collect_variants(&direction_decl(), true).unwrap();
    assert_eq!(name, "Direction");
    assert_eq!(names, vec!["Up", "Left", "Down", "Right"]);
}

#[test]
fn read_declaration_extracts_the_enum() {
    match rotate_enum::parse::read_declaration(direction_stream()) {
        TypeDecl::Enum { name, variants } => {
            assert_eq!(name, "Direction");
            let names: Vec<String> = variants.iter().map(|v| v.name.clone()).collect();
            assert_eq!(names, vec!["Up", "Left", "Down", "Right"]);
            assert!(variants.iter().all(|v| !v.has_data));
        }
        TypeDecl::NotEnum => panic!("expected an enum declaration"),
    }
}
