use prisma_bridge::args::{convert_prisma_args, PrismaArgs};

fn sorted(args: PrismaArgs<i32>) -> Vec<(String, i32)> {
    let mut entries = args.into_entries();
    entries.sort();
    entries
}

#[test]
fn args_keep_every_key() {
    let args = convert_prisma_args(vec![("name".to_string(), 1), ("age".to_string(), 2)]);
    assert_eq!(sorted(args), vec![("age".to_string(), 2), ("name".to_string(), 1)]);
}

#[test]
fn later_value_of_a_key_wins() {
    let args = convert_prisma_args(vec![
        ("name".to_string(), 1),
        ("age".to_string(), 2),
        ("name".to_string(), 3),
    ]);
    assert_eq!(sorted(args), vec![("age".to_string(), 2), ("name".to_string(), 3)]);
}

#[test]
fn no_pairs_give_no_args() {
    let args: PrismaArgs<i32> = convert_prisma_args(vec![]);
    assert!(args.into_entries().is_empty());
}

#[test]
fn insert_replaces_a_value() {
    let mut args = PrismaArgs::default();
    args.insert("a".to_string(), 1);
    args.insert("b".to_string(), 2);
    args.insert("a".to_string(), 5);
    assert_eq!(sorted(args), vec![("a".to_string(), 5), ("b".to_string(), 2)]);
}
