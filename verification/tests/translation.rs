//! The procedure translator and the strict key-type parser.

use stronghold_sessions::{
    create_client, execute_procedure, initialize, BytesDto, Curve, Error, KeyType, Location,
    LocationDto, MnemonicLanguage, Procedure, ProcedureDto, Session, Slip10DeriveInput,
    Slip10DeriveInputDto, StrongholdCollection,
};

fn loc_dto(vault: &str, record: &str) -> LocationDto {
    LocationDto::Generic {
        vault: BytesDto::Text(vault.to_string()),
        record: BytesDto::Text(record.to_string()),
    }
}

fn loc(vault: &str, record: &str) -> Location {
    Location::Generic {
        vault: vault.as_bytes().to_vec(),
        record: record.as_bytes().to_vec(),
    }
}

#[test]
fn key_type_parses_any_letter_case() {
    assert_eq!(KeyType::parse("Ed25519"), Ok(KeyType::Ed25519));
    assert_eq!(KeyType::parse("ED25519"), Ok(KeyType::Ed25519));
    assert_eq!(KeyType::parse("ed25519"), Ok(KeyType::Ed25519));
    assert_eq!(KeyType::parse("x25519"), Ok(KeyType::X25519));
    assert_eq!(KeyType::parse("X25519"), Ok(KeyType::X25519));
}

#[test]
fn key_type_rejects_everything_else() {
    assert_eq!(KeyType::parse("curve25519"), Err(Error::UnknownKeyType));
    assert_eq!(KeyType::parse(""), Err(Error::UnknownKeyType));
    assert_eq!(KeyType::parse("ed2551"), Err(Error::UnknownKeyType));
    assert_eq!(KeyType::parse("ed255199"), Err(Error::UnknownKeyType));
}

#[test]
fn slip10_generate_translates_field_by_field() {
    let dto = ProcedureDto::SLIP10Generate {
        output: loc_dto("vault", "slot"),
        size_bytes: Some(32),
    };
    assert_eq!(
        dto.into_procedure(),
        Procedure::Slip10Generate {
            output: loc("vault", "slot"),
            size_bytes: Some(32),
        }
    );
}

#[test]
fn slip10_derive_copies_parameters_unchanged() {
    let dto = ProcedureDto::SLIP10Derive {
        curve: Curve::Ed25519,
        chain: vec![44, 4218, 0],
        input: Slip10DeriveInputDto::Seed(loc_dto("vault", "seed")),
        output: loc_dto("vault", "child"),
        network: "mainnet".to_string(),
    };
    assert_eq!(
        dto.into_procedure(),
        Procedure::Slip10Derive {
            curve: Curve::Ed25519,
            chain: vec![44, 4218, 0],
            input: Slip10DeriveInput::Seed(loc("vault", "seed")),
            output: loc("vault", "child"),
            network: "mainnet".to_string(),
        }
    );
}

#[test]
fn bip39_recover_defaults_to_empty_passphrase() {
    let dto = ProcedureDto::BIP39Recover {
        mnemonic: "abandon ability able".to_string(),
        passphrase: None,
        output: loc_dto("vault", "seed"),
    };
    assert_eq!(
        dto.into_procedure(),
        Procedure::BIP39Recover {
            mnemonic: "abandon ability able".to_string(),
            passphrase: String::new(),
            output: loc("vault", "seed"),
        }
    );
}

#[test]
fn bip39_generate_keeps_passphrase_and_fixes_english() {
    let dto = ProcedureDto::BIP39Generate {
        passphrase: Some("hunter2".to_string()),
        output: loc_dto("vault", "seed"),
    };
    assert_eq!(
        dto.into_procedure(),
        Procedure::BIP39Generate {
            passphrase: "hunter2".to_string(),
            output: loc("vault", "seed"),
            language: MnemonicLanguage::English,
        }
    );
}

#[test]
fn public_key_keeps_key_type() {
    let dto = ProcedureDto::PublicKey {
        ty: KeyType::X25519,
        private_key: loc_dto("vault", "key"),
    };
    assert_eq!(
        dto.into_procedure(),
        Procedure::PublicKey {
            ty: KeyType::X25519,
            private_key: loc("vault", "key"),
        }
    );
}

#[test]
fn ed25519_sign_converts_message_to_utf8_bytes() {
    let dto = ProcedureDto::Ed25519Sign {
        private_key: loc_dto("vault", "key"),
        msg: "sign me".to_string(),
    };
    assert_eq!(
        dto.into_procedure(),
        Procedure::Ed25519Sign {
            private_key: loc("vault", "key"),
            msg: b"sign me".to_vec(),
        }
    );
}

#[test]
fn aleo_execute_copies_chain_values_textually() {
    let dto = ProcedureDto::AleoExecute {
        private_key: loc_dto("vault", "key"),
        program_id: "credits.aleo".to_string(),
        function_name: "transfer_public".to_string(),
        inputs: vec!["aleo1abc".to_string(), "5u64".to_string()],
        fee_record: None,
        priority_fee_in_microcredits: 1000,
        base_url: "https://api.example".to_string(),
    };
    assert_eq!(
        dto.into_procedure(),
        Procedure::AleoExecute {
            private_key: loc("vault", "key"),
            program_id: "credits.aleo".to_string(),
            function_name: "transfer_public".to_string(),
            inputs: vec!["aleo1abc".to_string(), "5u64".to_string()],
            fee_record: None,
            priority_fee_in_microcredits: 1000,
            base_url: "https://api.example".to_string(),
        }
    );
}

#[test]
fn aleo_fee_private_keeps_fees_and_record() {
    let dto = ProcedureDto::AleoAuthorizeFeePrivate {
        private_key: loc_dto("vault", "key"),
        credits: "record1xyz".to_string(),
        base_fee_in_microcredits: 300,
        priority_fee_in_microcredits: 7,
        deployment_or_execution_id: "field123".to_string(),
    };
    assert_eq!(
        dto.into_procedure(),
        Procedure::AleoAuthorizeFeePrivate {
            private_key: loc("vault", "key"),
            credits: "record1xyz".to_string(),
            base_fee_in_microcredits: 300,
            priority_fee_in_microcredits: 7,
            deployment_or_execution_id: "field123".to_string(),
        }
    );
}

#[test]
fn execute_procedure_validates_then_translates() {
    let mut coll = StrongholdCollection::new();
    let p = "/tmp/procedures".to_string();
    let c = BytesDto::Text("app".to_string());
    let make = || ProcedureDto::GetAleoAddress {
        private_key: loc_dto("vault", "key"),
        ext: "ext".to_string(),
    };

    assert_eq!(execute_procedure(&coll, &p, &c, make()), Err(Error::NotInitialized));
    assert_eq!(initialize(&mut coll, p.clone(), Ok(Session::new())), Ok(()));
    assert_eq!(execute_procedure(&coll, &p, &c, make()), Err(Error::ClientNotFound));
    assert_eq!(create_client(&mut coll, &p, &c), Ok(()));
    assert_eq!(
        execute_procedure(&coll, &p, &c, make()),
        Ok(Procedure::GetAleoAddress {
            private_key: loc("vault", "key"),
            ext: "ext".to_string(),
        })
    );
}

#[test]
fn slip10_derive_key_input_keeps_its_tag() {
    let dto = ProcedureDto::SLIP10Derive {
        curve: Curve::Secp256k1,
        chain: vec![0],
        input: Slip10DeriveInputDto::Key(loc_dto("vault", "parent")),
        output: loc_dto("vault", "child"),
        network: "testnet".to_string(),
    };
    assert_eq!(
        dto.into_procedure(),
        Procedure::Slip10Derive {
            curve: Curve::Secp256k1,
            chain: vec![0],
            input: Slip10DeriveInput::Key(loc("vault", "parent")),
            output: loc("vault", "child"),
            network: "testnet".to_string(),
        }
    );
}

#[test]
fn aleo_sign_converts_message_and_keeps_extension() {
    let dto = ProcedureDto::AleoSign {
        private_key: loc_dto("vault", "key"),
        msg: "payload".to_string(),
        ext: "ext1".to_string(),
    };
    assert_eq!(
        dto.into_procedure(),
        Procedure::AleoSign {
            private_key: loc("vault", "key"),
            msg: b"payload".to_vec(),
            ext: "ext1".to_string(),
        }
    );
}

#[test]
fn aleo_view_key_translates() {
    let dto = ProcedureDto::GetAleoViewKey {
        private_key: loc_dto("vault", "key"),
    };
    assert_eq!(
        dto.into_procedure(),
        Procedure::GetAleoViewKey {
            private_key: loc("vault", "key"),
        }
    );
}

#[test]
fn aleo_sign_request_copies_structured_parameters() {
    let dto = ProcedureDto::AleoSignRequest {
        program_id: "credits.aleo".to_string(),
        function_name: "join".to_string(),
        inputs: vec!["r0".to_string()],
        input_types: vec!["record".to_string()],
        root_tvk: Some("field7".to_string()),
        is_root: true,
        private_key: loc_dto("vault", "key"),
    };
    assert_eq!(
        dto.into_procedure(),
        Procedure::AleoSignRequest {
            program_id: "credits.aleo".to_string(),
            function_name: "join".to_string(),
            inputs: vec!["r0".to_string()],
            input_types: vec!["record".to_string()],
            root_tvk: Some("field7".to_string()),
            is_root: true,
            private_key: loc("vault", "key"),
        }
    );
}

#[test]
fn aleo_authorize_and_fee_public_translate() {
    let dto = ProcedureDto::AleoAuthorize {
        private_key: loc_dto("vault", "key"),
        program_id: "credits.aleo".to_string(),
        function_name: "transfer_private".to_string(),
        inputs: vec!["in0".to_string()],
    };
    assert_eq!(
        dto.into_procedure(),
        Procedure::AleoAuthorize {
            private_key: loc("vault", "key"),
            program_id: "credits.aleo".to_string(),
            function_name: "transfer_private".to_string(),
            inputs: vec!["in0".to_string()],
        }
    );

    let fee = ProcedureDto::AleoAuthorizeFeePublic {
        private_key: loc_dto("vault", "key"),
        base_fee_in_microcredits: 12,
        priority_fee_in_microcredits: 0,
        deployment_or_execution_id: "field9".to_string(),
    };
    assert_eq!(
        fee.into_procedure(),
        Procedure::AleoAuthorizeFeePublic {
            private_key: loc("vault", "key"),
            base_fee_in_microcredits: 12,
            priority_fee_in_microcredits: 0,
            deployment_or_execution_id: "field9".to_string(),
        }
    );
}

#[test]
fn counter_location_in_procedure_resolves() {
    let dto = ProcedureDto::SLIP10Generate {
        output: LocationDto::Counter {
            vault: BytesDto::Text("vault".to_string()),
            counter: 3,
        },
        size_bytes: None,
    };
    assert_eq!(
        dto.into_procedure(),
        Procedure::Slip10Generate {
            output: Location::Counter {
                vault: b"vault".to_vec(),
                counter: 3,
            },
            size_bytes: None,
        }
    );
}
