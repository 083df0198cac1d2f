use spot::commands::alias::{add, list, remove};
use spot::commands::auth::{
    is_maskable, mask_client_id, setup_credentials, show_status, AuthStatus, SHOWN_BYTES,
};
use spot::config::{Alias, AliasBook, Config};

fn alias(name: &str, query: &str) -> Alias {
    Alias { name: name.to_string(), query: query.to_string() }
}

#[test]
fn default_config_has_nothing_set_up() {
    let config = Config::default();
    assert_eq!(config, Config { client_id: None, client_secret: None, aliases: None });
    assert!(!config.has_credentials());
    assert!(list(&config).is_empty());
}

#[test]
fn credentials_need_both_parts() {
    let mut config = Config::default();
    config.client_id = Some("id".to_string());
    assert!(!config.has_credentials());
    config.client_secret = Some("secret".to_string());
    assert!(config.has_credentials());
    config.client_id = None;
    assert!(!config.has_credentials());
}

#[test]
fn alias_book_maps_names_to_queries() {
    let mut book = AliasBook::new();
    assert!(book.is_empty());
    assert_eq!(book.get("a"), None);
    book.insert("white-album", "The Beatles White Album");
    book.insert("ok", "OK Computer");
    assert!(!book.is_empty());
    assert_eq!(book.get("white-album"), Some("The Beatles White Album".to_string()));
    assert_eq!(book.get("ok"), Some("OK Computer".to_string()));
    assert_eq!(book.get("OK"), None);
    assert_eq!(book.get(""), None);
}

#[test]
fn alias_insert_replaces_the_query() {
    let mut book = AliasBook::new();
    book.insert("a", "first");
    book.insert("a", "second");
    assert_eq!(book.get("a"), Some("second".to_string()));
    assert_eq!(book.entries(), &vec![alias("a", "second")]);
}

#[test]
fn alias_remove_forgets_only_that_name() {
    let mut book = AliasBook::new();
    book.insert("a", "1");
    book.insert("b", "2");
    book.insert("c", "3");
    book.remove("b");
    assert_eq!(book.get("b"), None);
    assert_eq!(book.entries(), &vec![alias("a", "1"), alias("c", "3")]);
    book.remove("zzz");
    assert_eq!(book.entries().len(), 2);
    book.remove("a");
    book.remove("c");
    assert!(book.is_empty());
}

#[test]
fn aliases_are_listed_in_the_order_of_their_names() {
    let mut config = Config::default();
    for (name, query) in [("m", "1"), ("b", "2"), ("z", "3"), ("a", "4"), ("ab", "5"), ("B", "6"), ("é", "7"), ("", "8")] {
        add(&mut config, name, query);
    }
    let listed: Vec<String> = list(&config).into_iter().map(|a| a.name).collect();
    let mut sorted = listed.clone();
    sorted.sort();
    assert_eq!(listed, sorted);
    assert_eq!(listed, vec!["", "B", "a", "ab", "b", "m", "z", "é"]);
}

#[test]
fn add_alias_creates_the_book_and_keeps_credentials() {
    let mut config = Config {
        client_id: Some("id".to_string()),
        client_secret: Some("secret".to_string()),
        aliases: None,
    };
    add(&mut config, "x", "y");
    assert!(config.aliases.is_some());
    assert_eq!(list(&config), vec![alias("x", "y")]);
    assert_eq!(config.client_id, Some("id".to_string()));
    assert_eq!(config.client_secret, Some("secret".to_string()));
}

#[test]
fn remove_alias_leaves_a_missing_book_missing() {
    let mut config = Config::default();
    remove(&mut config, "x");
    assert_eq!(config.aliases, None);
    add(&mut config, "x", "y");
    remove(&mut config, "x");
    assert_eq!(config.aliases, Some(AliasBook::new()));
    assert!(list(&config).is_empty());
}

#[test]
fn client_id_is_masked_for_display() {
    assert_eq!(SHOWN_BYTES, 4);
    assert_eq!(mask_client_id("0123456789abcdef"), "0123…cdef");
    assert_eq!(mask_client_id("123456789"), "1234…6789");
    assert_eq!(mask_client_id("12345678"), "****");
    assert_eq!(mask_client_id("short"), "****");
    assert_eq!(mask_client_id(""), "****");
    assert_eq!(mask_client_id("ééé"), "****");
    assert_eq!(mask_client_id("ééabcdéé"), "éé…éé");
}

#[test]
fn client_id_that_cannot_be_cut_is_not_maskable() {
    assert!(is_maskable("0123456789abcdef"));
    assert!(is_maskable("short"));
    assert!(is_maskable("ééabcdéé"));
    assert!(!is_maskable("abcéfghijk"));
    assert!(!is_maskable("abcdefgéijk"));
    assert!(!is_maskable("•••"));
}

#[test]
fn status_shows_the_masked_client_id() {
    assert_eq!(show_status(&Config::default()), AuthStatus::NotConfigured);
    let half = Config { client_id: Some("0123456789abcdef".to_string()), client_secret: None, aliases: None };
    assert_eq!(show_status(&half), AuthStatus::NotConfigured);
    let full = Config {
        client_id: Some("0123456789abcdef".to_string()),
        client_secret: Some("s".to_string()),
        aliases: None,
    };
    assert_eq!(show_status(&full), AuthStatus::Configured { masked_id: "0123…cdef".to_string() });
}

#[test]
fn entered_credentials_are_trimmed() {
    let mut config = Config::default();
    add(&mut config, "a", "b");
    setup_credentials(&mut config, "  my-id \n", "\tmy secret ");
    assert_eq!(config.client_id, Some("my-id".to_string()));
    assert_eq!(config.client_secret, Some("my secret".to_string()));
    assert_eq!(list(&config), vec![alias("a", "b")]);
    assert!(config.has_credentials());
}
