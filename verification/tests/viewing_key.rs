use wolf_power_up::encoding::viewing_key_from_entropy;

#[test]
fn viewing_key_of_empty_entropy() {
    assert_eq!(
        viewing_key_from_entropy(&String::new()),
        "47DEQpj8HBSa+/TImW+5JCeuQeRkm5NMpJWZG3hSuFU="
    );
}

#[test]
fn viewing_key_of_short_entropy() {
    assert_eq!(
        viewing_key_from_entropy(&"abc".to_string()),
        "NdlWlNPxYCFdspPHiZ2qWQeDeDj7S4EZ7XE+MkRsEmY="
    );
}

#[test]
fn viewing_key_is_deterministic_and_44_long() {
    let e = "wolf pack entropy".to_string();
    let k1 = viewing_key_from_entropy(&e);
    let k2 = viewing_key_from_entropy(&e);
    assert_eq!(k1, k2);
    assert_eq!(k1, "3jl6ntdSLdKiR+QPrckifkBJ8WH7WnhaEQ10qewtjuU=");
    assert_eq!(k1.len(), 44);
    assert_ne!(k1, e);
}
