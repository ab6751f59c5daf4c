//! The procedure translator: converts one externally tagged command payload
//! into exactly one typed cryptographic procedure invocation of the engine.
//! The supported kinds are a closed set; translation is an exhaustive match
//! with no default arm, pure and side-effect-free. Chain-specific values
//! (program identifiers, typed values, records, field elements) are carried
//! in their textual form and parsed downstream by the chain library: the
//! translator copies them unchanged and never alters cryptographic
//! parameters.

use vstd::prelude::*;
use vstd::string::StrSliceExecFns;
use vstd::utf8::encode_utf8;

use crate::key_type::KeyType;
use crate::location::{Location, LocationDto, LocationView};

verus! {

/// Spec-level picture of a key-derivation input.
pub ghost enum Slip10DeriveInputView {
    Seed(LocationView),
    Key(LocationView),
}

/// A key-derivation input request: the location holds either a seed or an
/// already-derived parent key.
#[derive(Clone, Debug, PartialEq, Eq)]
pub enum Slip10DeriveInputDto {
    Seed(LocationDto),
    Key(LocationDto),
}

impl Slip10DeriveInputDto {
    /// The resolved form of the input request.
    pub open spec fn spec_resolved(&self) -> Slip10DeriveInputView {
        match self {
            Slip10DeriveInputDto::Seed(l) => Slip10DeriveInputView::Seed(l.spec_resolved()),
            Slip10DeriveInputDto::Key(l) => Slip10DeriveInputView::Key(l.spec_resolved()),
        }
    }
}

/// Model of the engine's key-derivation input: a resolved location tagged as
/// seed or key.
#[derive(Clone, Debug, PartialEq, Eq)]
pub enum Slip10DeriveInput {
    Seed(Location),
    Key(Location),
}

impl View for Slip10DeriveInput {
    type V = Slip10DeriveInputView;

    open spec fn view(&self) -> Slip10DeriveInputView {
        match self {
            Slip10DeriveInput::Seed(l) => Slip10DeriveInputView::Seed(l@),
            Slip10DeriveInput::Key(l) => Slip10DeriveInputView::Key(l@),
        }
    }
}

impl Slip10DeriveInput {
    /// Resolves the input request; the tag carries over unchanged.
    pub fn resolve(dto: &Slip10DeriveInputDto) -> (r: Slip10DeriveInput)
        ensures
            r@ == dto.spec_resolved(),
    {
        match dto {
            Slip10DeriveInputDto::Seed(l) => Slip10DeriveInput::Seed(Location::resolve(l)),
            Slip10DeriveInputDto::Key(l) => Slip10DeriveInput::Key(Location::resolve(l)),
        }
    }
}

/// The elliptic curve a key derivation works over; copied to the engine
/// unchanged.
#[derive(Clone, Copy, Debug, PartialEq, Eq)]
pub enum Curve {
    Ed25519,
    Secp256k1,
}

/// The mnemonic word list; this layer always asks the engine for the
/// English one.
#[derive(Clone, Copy, Debug, PartialEq, Eq)]
pub enum MnemonicLanguage {
    English,
}

/// The default for an absent optional passphrase: the empty passphrase.
pub open spec fn passphrase_or_empty(p: Option<String>) -> Seq<char> {
    match p {
        Some(s) => s@,
        None => Seq::empty(),
    }
}

/// An externally tagged procedure request, exactly as the wire carries it:
/// one variant per supported procedure kind, with its payload fields.
#[derive(Clone, Debug, PartialEq, Eq)]
pub enum ProcedureDto {
    SLIP10Generate {
        output: LocationDto,
        size_bytes: Option<usize>,
    },
    SLIP10Derive {
        curve: Curve,
        chain: Vec<u32>,
        input: Slip10DeriveInputDto,
        output: LocationDto,
        network: String,
    },
    BIP39Recover {
        mnemonic: String,
        passphrase: Option<String>,
        output: LocationDto,
    },
    BIP39Generate {
        passphrase: Option<String>,
        output: LocationDto,
    },
    PublicKey {
        ty: KeyType,
        private_key: LocationDto,
    },
    Ed25519Sign {
        private_key: LocationDto,
        msg: String,
    },
    AleoSign {
        private_key: LocationDto,
        msg: String,
        ext: String,
    },
    GetAleoAddress {
        private_key: LocationDto,
        ext: String,
    },
    GetAleoViewKey {
        private_key: LocationDto,
    },
    AleoSignRequest {
        program_id: String,
        function_name: String,
        inputs: Vec<String>,
        input_types: Vec<String>,
        root_tvk: Option<String>,
        is_root: bool,
        private_key: LocationDto,
    },
    AleoAuthorize {
        private_key: LocationDto,
        program_id: String,
        function_name: String,
        inputs: Vec<String>,
    },
    AleoAuthorizeFeePublic {
        private_key: LocationDto,
        base_fee_in_microcredits: u64,
        priority_fee_in_microcredits: u64,
        deployment_or_execution_id: String,
    },
    AleoAuthorizeFeePrivate {
        private_key: LocationDto,
        credits: String,
        base_fee_in_microcredits: u64,
        priority_fee_in_microcredits: u64,
        deployment_or_execution_id: String,
    },
    AleoExecute {
        private_key: LocationDto,
        program_id: String,
        function_name: String,
        inputs: Vec<String>,
        fee_record: Option<String>,
        priority_fee_in_microcredits: u64,
        base_url: String,
    },
}

/// Model of the engine's typed procedure invocation: the closed set of
/// operations it executes against key material addressed by location.
#[derive(Clone, Debug, PartialEq, Eq)]
pub enum Procedure {
    Slip10Generate {
        output: Location,
        size_bytes: Option<usize>,
    },
    Slip10Derive {
        curve: Curve,
        chain: Vec<u32>,
        input: Slip10DeriveInput,
        output: Location,
        network: String,
    },
    BIP39Recover {
        mnemonic: String,
        passphrase: String,
        output: Location,
    },
    BIP39Generate {
        passphrase: String,
        output: Location,
        language: MnemonicLanguage,
    },
    PublicKey {
        ty: KeyType,
        private_key: Location,
    },
    Ed25519Sign {
        private_key: Location,
        msg: Vec<u8>,
    },
    AleoSign {
        private_key: Location,
        msg: Vec<u8>,
        ext: String,
    },
    GetAleoAddress {
        private_key: Location,
        ext: String,
    },
    GetAleoViewKey {
        private_key: Location,
    },
    AleoSignRequest {
        program_id: String,
        function_name: String,
        inputs: Vec<String>,
        input_types: Vec<String>,
        root_tvk: Option<String>,
        is_root: bool,
        private_key: Location,
    },
    AleoAuthorize {
        private_key: Location,
        program_id: String,
        function_name: String,
        inputs: Vec<String>,
    },
    AleoAuthorizeFeePublic {
        private_key: Location,
        base_fee_in_microcredits: u64,
        priority_fee_in_microcredits: u64,
        deployment_or_execution_id: String,
    },
    AleoAuthorizeFeePrivate {
        private_key: Location,
        credits: String,
        base_fee_in_microcredits: u64,
        priority_fee_in_microcredits: u64,
        deployment_or_execution_id: String,
    },
    AleoExecute {
        private_key: Location,
        program_id: String,
        function_name: String,
        inputs: Vec<String>,
        fee_record: Option<String>,
        priority_fee_in_microcredits: u64,
        base_url: String,
    },
}

/// What translation means: the request and the invocation pair up variant by
/// variant; locations resolve to their byte form, text messages become their
/// UTF-8 bytes, an absent passphrase becomes the empty one, and every other
/// field carries over unchanged.
pub open spec fn translates_to(dto: ProcedureDto, p: Procedure) -> bool {
    match (dto, p) {
        (
            ProcedureDto::SLIP10Generate { output, size_bytes },
            Procedure::Slip10Generate { output: o, size_bytes: sb },
        ) => o@ == output.spec_resolved() && sb == size_bytes,
        (
            ProcedureDto::SLIP10Derive { curve, chain, input, output, network },
            Procedure::Slip10Derive {
                curve: c2,
                chain: ch2,
                input: in2,
                output: o2,
                network: n2,
            },
        ) => c2 == curve && ch2@ == chain@ && in2@ == input.spec_resolved() && o2@
            == output.spec_resolved() && n2@ == network@,
        (
            ProcedureDto::BIP39Recover { mnemonic, passphrase, output },
            Procedure::BIP39Recover { mnemonic: m2, passphrase: p2, output: o2 },
        ) => m2@ == mnemonic@ && p2@ == passphrase_or_empty(passphrase) && o2@
            == output.spec_resolved(),
        (
            ProcedureDto::BIP39Generate { passphrase, output },
            Procedure::BIP39Generate { passphrase: p2, output: o2, language: l2 },
        ) => p2@ == passphrase_or_empty(passphrase) && o2@ == output.spec_resolved() && l2
            == MnemonicLanguage::English,
        (
            ProcedureDto::PublicKey { ty, private_key },
            Procedure::PublicKey { ty: t2, private_key: k2 },
        ) => t2 == ty && k2@ == private_key.spec_resolved(),
        (
            ProcedureDto::Ed25519Sign { private_key, msg },
            Procedure::Ed25519Sign { private_key: k2, msg: m2 },
        ) => k2@ == private_key.spec_resolved() && m2@ == encode_utf8(msg@),
        (
            ProcedureDto::AleoSign { private_key, msg, ext },
            Procedure::AleoSign { private_key: k2, msg: m2, ext: e2 },
        ) => k2@ == private_key.spec_resolved() && m2@ == encode_utf8(msg@) && e2@ == ext@,
        (
            ProcedureDto::GetAleoAddress { private_key, ext },
            Procedure::GetAleoAddress { private_key: k2, ext: e2 },
        ) => k2@ == private_key.spec_resolved() && e2@ == ext@,
        (
            ProcedureDto::GetAleoViewKey { private_key },
            Procedure::GetAleoViewKey { private_key: k2 },
        ) => k2@ == private_key.spec_resolved(),
        (
            ProcedureDto::AleoSignRequest {
                program_id,
                function_name,
                inputs,
                input_types,
                root_tvk,
                is_root,
                private_key,
            },
            Procedure::AleoSignRequest {
                program_id: pid2,
                function_name: f2,
                inputs: i2,
                input_types: t2,
                root_tvk: r2,
                is_root: ir2,
                private_key: k2,
            },
        ) => pid2@ == program_id@ && f2@ == function_name@ && i2@ == inputs@ && t2@
            == input_types@ && r2 == root_tvk && ir2 == is_root && k2@
            == private_key.spec_resolved(),
        (
            ProcedureDto::AleoAuthorize { private_key, program_id, function_name, inputs },
            Procedure::AleoAuthorize {
                private_key: k2,
                program_id: pid2,
                function_name: f2,
                inputs: i2,
            },
        ) => k2@ == private_key.spec_resolved() && pid2@ == program_id@ && f2@
            == function_name@ && i2@ == inputs@,
        (
            ProcedureDto::AleoAuthorizeFeePublic {
                private_key,
                base_fee_in_microcredits,
                priority_fee_in_microcredits,
                deployment_or_execution_id,
            },
            Procedure::AleoAuthorizeFeePublic {
                private_key: k2,
                base_fee_in_microcredits: b2,
                priority_fee_in_microcredits: pr2,
                deployment_or_execution_id: d2,
            },
        ) => k2@ == private_key.spec_resolved() && b2 == base_fee_in_microcredits && pr2
            == priority_fee_in_microcredits && d2@ == deployment_or_execution_id@,
        (
            ProcedureDto::AleoAuthorizeFeePrivate {
                private_key,
                credits,
                base_fee_in_microcredits,
                priority_fee_in_microcredits,
                deployment_or_execution_id,
            },
            Procedure::AleoAuthorizeFeePrivate {
                private_key: k2,
                credits: c2,
                base_fee_in_microcredits: b2,
                priority_fee_in_microcredits: pr2,
                deployment_or_execution_id: d2,
            },
        ) => k2@ == private_key.spec_resolved() && c2@ == credits@ && b2
            == base_fee_in_microcredits && pr2 == priority_fee_in_microcredits && d2@
            == deployment_or_execution_id@,
        (
            ProcedureDto::AleoExecute {
                private_key,
                program_id,
                function_name,
                inputs,
                fee_record,
                priority_fee_in_microcredits,
                base_url,
            },
            Procedure::AleoExecute {
                private_key: k2,
                program_id: pid2,
                function_name: f2,
                inputs: i2,
                fee_record: fr2,
                priority_fee_in_microcredits: pr2,
                base_url: u2,
            },
        ) => k2@ == private_key.spec_resolved() && pid2@ == program_id@ && f2@
            == function_name@ && i2@ == inputs@ && fr2 == fee_record && pr2
            == priority_fee_in_microcredits && u2@ == base_url@,
        _ => false,
    }
}

impl ProcedureDto {
    /// Translates the request into the engine invocation it denotes — an
    /// exhaustive match, one invocation per request, with no side effect.
    pub fn into_procedure(self) -> (p: Procedure)
        ensures
            translates_to(self, p),
    {
        match self {
            ProcedureDto::SLIP10Generate { output, size_bytes } => Procedure::Slip10Generate {
                output: Location::resolve(&output),
                size_bytes,
            },
            ProcedureDto::SLIP10Derive { curve, chain, input, output, network } => {
                Procedure::Slip10Derive {
                    curve,
                    chain,
                    input: Slip10DeriveInput::resolve(&input),
                    output: Location::resolve(&output),
                    network,
                }
            },
            ProcedureDto::BIP39Recover { mnemonic, passphrase, output } => {
                Procedure::BIP39Recover {
                    mnemonic,
                    passphrase: match passphrase {
                        Some(p) => p,
                        None => String::new(),
                    },
                    output: Location::resolve(&output),
                }
            },
            ProcedureDto::BIP39Generate { passphrase, output } => Procedure::BIP39Generate {
                passphrase: match passphrase {
                    Some(p) => p,
                    None => String::new(),
                },
                output: Location::resolve(&output),
                language: MnemonicLanguage::English,
            },
            ProcedureDto::PublicKey { ty, private_key } => Procedure::PublicKey {
                ty,
                private_key: Location::resolve(&private_key),
            },
            ProcedureDto::Ed25519Sign { private_key, msg } => Procedure::Ed25519Sign {
                private_key: Location::resolve(&private_key),
                msg: msg.as_str().as_bytes_vec(),
            },
            ProcedureDto::AleoSign { private_key, msg, ext } => Procedure::AleoSign {
                private_key: Location::resolve(&private_key),
                msg: msg.as_str().as_bytes_vec(),
                ext,
            },
            ProcedureDto::GetAleoAddress { private_key, ext } => Procedure::GetAleoAddress {
                private_key: Location::resolve(&private_key),
                ext,
            },
            ProcedureDto::GetAleoViewKey { private_key } => Procedure::GetAleoViewKey {
                private_key: Location::resolve(&private_key),
            },
            ProcedureDto::AleoSignRequest {
                program_id,
                function_name,
                inputs,
                input_types,
                root_tvk,
                is_root,
                private_key,
            } => Procedure::AleoSignRequest {
                program_id,
                function_name,
                inputs,
                input_types,
                root_tvk,
                is_root,
                private_key: Location::resolve(&private_key),
            },
            ProcedureDto::AleoAuthorize { private_key, program_id, function_name, inputs } => {
                Procedure::AleoAuthorize {
                    private_key: Location::resolve(&private_key),
                    program_id,
                    function_name,
                    inputs,
                }
            },
            ProcedureDto::AleoAuthorizeFeePublic {
                private_key,
                base_fee_in_microcredits,
                priority_fee_in_microcredits,
                deployment_or_execution_id,
            } => Procedure::AleoAuthorizeFeePublic {
                private_key: Location::resolve(&private_key),
                base_fee_in_microcredits,
                priority_fee_in_microcredits,
                deployment_or_execution_id,
            },
            ProcedureDto::AleoAuthorizeFeePrivate {
                private_key,
                credits,
                base_fee_in_microcredits,
                priority_fee_in_microcredits,
                deployment_or_execution_id,
            } => Procedure::AleoAuthorizeFeePrivate {
                private_key: Location::resolve(&private_key),
                credits,
                base_fee_in_microcredits,
                priority_fee_in_microcredits,
                deployment_or_execution_id,
            },
            ProcedureDto::AleoExecute {
                private_key,
                program_id,
                function_name,
                inputs,
                fee_record,
                priority_fee_in_microcredits,
                base_url,
            } => Procedure::AleoExecute {
                private_key: Location::resolve(&private_key),
                program_id,
                function_name,
                inputs,
                fee_record,
                priority_fee_in_microcredits,
                base_url,
            },
        }
    }
}

} // verus!
