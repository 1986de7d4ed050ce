use labrinth::routes::v3::tags::{loader_list, LoaderRow};
use labrinth::util::text_sort::{arrange, stable_text_order};

fn strings(v: &[&str]) -> Vec<String> {
    v.iter().map(|s| s.to_string()).collect()
}

#[test]
fn text_order_is_stable_and_by_code_point() {
    let keys = strings(&["forge", "fabric", "forge", "", "fabricx", "Zeta"]);
    assert_eq!(stable_text_order(&keys), vec![3, 5, 1, 4, 0, 2]);
    assert_eq!(stable_text_order(&Vec::new()), Vec::<usize>::new());
}

#[test]
fn arrange_takes_positions_in_order() {
    let items = strings(&["a", "b", "c"]);
    assert_eq!(arrange(items, &vec![2, 0, 1]), strings(&["c", "a", "b"]));
    assert_eq!(arrange(strings(&["a", "b"]), &vec![1]), strings(&["b"]));
}

fn row(id: i32, name: &str) -> LoaderRow {
    LoaderRow {
        id,
        icon: format!("<svg>{}</svg>", id),
        loader: name.to_string(),
        supported_project_types: strings(&["mod"]),
        supported_games: strings(&["minecraft-java"]),
    }
}

#[test]
fn loaders_listed_by_lowercase_name_with_fields() {
    let rows = vec![row(1, "Quilt"), row(2, "fabric"), row(3, "NeoForge"), row(4, "bukkit")];
    let fields = vec![(2, strings(&["game_versions", "mrpack_loaders"])), (4, strings(&["game_versions"]))];
    let list = loader_list(rows, &fields);
    let names: Vec<&str> = list.iter().map(|l| l.name.as_str()).collect();
    assert_eq!(names, vec!["bukkit", "fabric", "NeoForge", "Quilt"]);
    assert_eq!(list[1].supported_fields, strings(&["game_versions", "mrpack_loaders"]));
    assert_eq!(list[0].supported_fields, strings(&["game_versions"]));
    assert!(list[2].supported_fields.is_empty());
    assert_eq!(list[3].icon, "<svg>1</svg>");
    assert_eq!(list[3].supported_games, strings(&["minecraft-java"]));
}
