use tangle_kit::env_file::{env_entry, mnemonic_entry, signed_tx_entry, MNEMONIC_NAME, SIGNED_TX_NAME};

#[test]
fn entry_is_a_quoted_assignment_on_a_new_line() {
    assert_eq!(env_entry("NAME", "value"), "\nNAME=\"value\"");
    assert_eq!(env_entry("A", ""), "\nA=\"\"");
    assert_eq!(env_entry("", ""), "\n=\"\"");
}

#[test]
fn entry_keeps_the_value_as_it_is() {
    assert_eq!(env_entry("K", "two words"), "\nK=\"two words\"");
    assert_eq!(env_entry("K", "a\"b"), "\nK=\"a\"b\"");
    assert_eq!(env_entry("K", "päth/ü"), "\nK=\"päth/ü\"");
}

#[test]
fn mnemonic_entry_uses_its_name() {
    assert_eq!(MNEMONIC_NAME, "MNEMONIC");
    assert_eq!(
        mnemonic_entry("abandon ability able about above absent absorb abstract"),
        "\nMNEMONIC=\"abandon ability able about above absent absorb abstract\""
    );
}

#[test]
fn signed_tx_entry_uses_its_name() {
    assert_eq!(SIGNED_TX_NAME, "SIGNED_TX");
    assert_eq!(
        signed_tx_entry("signed/62500_signed_transaction.json"),
        "\nSIGNED_TX=\"signed/62500_signed_transaction.json\""
    );
}

#[test]
fn entry_agrees_with_formatting() {
    for (name, value) in [("MNEMONIC", "a b c"), ("SIGNED_TX", "signed/1_signed_transaction.json"), ("X", "")] {
        assert_eq!(env_entry(name, value), format!("\n{}=\"{}\"", name, value));
        assert_eq!(env_entry(name, value).chars().count(), name.chars().count() + value.chars().count() + 4);
    }
}
