use giga721::storage::{AssetEntry, StableStorage};

#[test]
fn storage_index_lookup() {
    let mut st = StableStorage::new();
    st.assets.push(AssetEntry { name: String::from("a.png"), offset: 30, size: 11, headers: Vec::new() });
    st.assets.push(AssetEntry { name: String::from("b.png"), offset: 60, size: 5, headers: Vec::new() });
    assert_eq!(st.get(&String::from("b.png")), Some((60, 5)));
    assert_eq!(st.get(&String::from("c.png")), None);
}
