//! What the program asks of the token and metadata service.
//!
//! The program never moves a unit itself. It decides what the service is to
//! do; the host carries the request out and reports how it went.

use crate::address::Address;
use anchor_lang::prelude::Pubkey;
use mpl_token_metadata::instructions::{
    CreateMasterEditionV3, CreateMasterEditionV3InstructionArgs, CreateMetadataAccountV3,
    CreateMetadataAccountV3InstructionArgs,
};
use mpl_token_metadata::types::{Collection, CollectionDetails, Creator, DataV2, Uses};
use vstd::prelude::*;
use vstd::utf8::encode_utf8;

verus! {

/// Mint `amount` units of `mint` to the holding account `to`.
#[derive(Clone, Copy, Debug, PartialEq, Eq)]
pub struct MintTo {
    pub mint: Address,
    pub to: Address,
    pub authority: Address,
    pub amount: u64,
}

/// Burn `amount` units of `mint` out of the holding account `from`.
#[derive(Clone, Copy, Debug, PartialEq, Eq)]
pub struct Burn {
    pub mint: Address,
    pub from: Address,
    pub authority: Address,
    pub amount: u64,
}

/// Move `amount` units from one holding account to another.
#[derive(Clone, Copy, Debug, PartialEq, Eq)]
pub struct Transfer {
    pub from: Address,
    pub to: Address,
    pub authority: Address,
    pub amount: u64,
}

/// Membership of a collection, and whether the collection has confirmed it.
#[derive(Clone, Copy, Debug, PartialEq, Eq)]
pub struct CollectionTag {
    pub verified: bool,
    pub key: Address,
}

/// The descriptive data attached to a unit. It names no creators and no
/// uses.
#[derive(Clone, Debug, PartialEq, Eq)]
pub struct TokenData {
    pub name: String,
    pub symbol: String,
    pub uri: String,
    /// The royalty on a sale, in hundredths of a percent.
    pub seller_fee_basis_points: u16,
    pub collection: Option<CollectionTag>,
}

/// Attach descriptive data to the unit `mint`.
#[derive(Clone, Debug, PartialEq, Eq)]
pub struct CreateMetadata {
    pub metadata: Address,
    pub mint: Address,
    pub mint_authority: Address,
    pub payer: Address,
    pub update_authority: Address,
    pub update_authority_is_signer: bool,
    pub system_program: Address,
    pub rent: Option<Address>,
    pub data: TokenData,
    pub is_mutable: bool,
}

/// Attach a master edition to the unit `mint`: a limit on how often it may
/// be printed.
#[derive(Clone, Copy, Debug, PartialEq, Eq)]
pub struct CreateMasterEdition {
    pub edition: Address,
    pub mint: Address,
    pub update_authority: Address,
    pub mint_authority: Address,
    pub payer: Address,
    pub metadata: Address,
    pub token_program: Address,
    pub system_program: Address,
    pub rent: Option<Address>,
    pub max_supply: Option<u64>,
}

/// One account of an instruction, and what the instruction may do with it.
#[derive(Clone, Copy, Debug, PartialEq, Eq)]
pub struct AccountMeta {
    pub pubkey: Address,
    pub is_signer: bool,
    pub is_writable: bool,
}

/// An instruction for another program, ready to be invoked.
#[derive(Clone, Debug, PartialEq, Eq)]
pub struct Instruction {
    pub program_id: Address,
    pub accounts: Vec<AccountMeta>,
    pub data: Vec<u8>,
}

/// An instruction as plain values.
pub struct InstructionView {
    pub program_id: Address,
    pub accounts: Seq<AccountMeta>,
    pub data: Seq<u8>,
}

impl View for Instruction {
    type V = InstructionView;

    open spec fn view(&self) -> InstructionView {
        InstructionView { program_id: self.program_id, accounts: self.accounts@, data: self.data@ }
    }
}

/// The address at which the metadata program is deployed. Every instruction
/// built here is addressed to it and to nothing else.
pub const TOKEN_METADATA_PROGRAM: [u8; 32] = [
    11, 112, 101, 177, 227, 209, 124, 69, 56, 157, 82, 127, 107, 4, 195, 205,
    88, 184, 108, 115, 26, 160, 253, 181, 73, 182, 209, 188, 3, 248, 41, 70,
];

/// An account that the instruction may write to.
pub open spec fn writable(pubkey: Address, is_signer: bool) -> AccountMeta {
    AccountMeta { pubkey, is_signer, is_writable: true }
}

/// An account that the instruction only reads.
pub open spec fn readonly(pubkey: Address, is_signer: bool) -> AccountMeta {
    AccountMeta { pubkey, is_signer, is_writable: false }
}

/// A string that the wire format can carry: its length in bytes fits the
/// 32-bit length written in front of it.
pub open spec fn fits_wire(text: Seq<char>) -> bool {
    encode_utf8(text).len() <= u32::MAX
}

/// Measures a string against the wire format.
fn text_fits_wire(text: &String) -> (fits: bool)
    ensures
        fits == fits_wire(text@),
{
    text.as_str().as_bytes().len() <= u32::MAX as usize
}

/// A collection tag as plain values.
pub open spec fn collection_view(collection: Option<CollectionTag>) -> Option<(bool, Seq<u8>)> {
    match collection {
        Some(tag) => Some((tag.verified, tag.key@)),
        None => None,
    }
}

/// The bytes that the metadata program reads its arguments from, for a unit
/// described by these values, with no creators, no uses and no collection
/// details.
pub uninterp spec fn metadata_data(
    name: Seq<char>,
    symbol: Seq<char>,
    uri: Seq<char>,
    seller_fee_basis_points: u16,
    collection: Option<(bool, Seq<u8>)>,
    is_mutable: bool,
) -> Seq<u8>;

/// The bytes that the metadata program reads a master edition's print limit
/// from.
pub uninterp spec fn master_edition_data(max_supply: Option<u64>) -> Seq<u8>;

/// An instruction as the builders hand it over: the program's address, then
/// each account with whether it signs and whether it may be written to, then
/// the data.
type RawInstruction = ([u8; 32], Vec<([u8; 32], bool, bool)>, Vec<u8>);

/// The account that a builder lists as these bytes, signing or not, open to
/// writing or not.
pub open spec fn account_of(raw: ([u8; 32], bool, bool)) -> AccountMeta {
    AccountMeta { pubkey: Address { bytes: raw.0 }, is_signer: raw.1, is_writable: raw.2 }
}

/// A creator as the metadata program knows it. The core names none.
#[verifier::external_type_specification]
#[verifier::external_body]
pub struct ExCreator(Creator);

/// A limit on the uses of a unit as the metadata program knows it. The core
/// sets none.
#[verifier::external_type_specification]
#[verifier::external_body]
pub struct ExUses(Uses);

/// The size of a collection as the metadata program knows it. The core
/// states none.
#[verifier::external_type_specification]
#[verifier::external_body]
pub struct ExCollectionDetails(CollectionDetails);

/// The accounts of a metadata instruction as the builder lists them.
pub open spec fn metadata_accounts(
    metadata: [u8; 32],
    mint: [u8; 32],
    mint_authority: [u8; 32],
    payer: [u8; 32],
    update_authority: [u8; 32],
    update_authority_is_signer: bool,
    system_program: [u8; 32],
    rent: Option<[u8; 32]>,
) -> Seq<([u8; 32], bool, bool)> {
    let fixed = seq![
        (metadata, false, true),
        (mint, false, false),
        (mint_authority, true, false),
        (payer, true, true),
        (update_authority, update_authority_is_signer, false),
        (system_program, false, false),
    ];
    match rent {
        Some(rent) => fixed.push((rent, false, false)),
        None => fixed,
    }
}

/// A collection tag as plain values.
pub open spec fn tag_view(collection: Option<(bool, [u8; 32])>) -> Option<(bool, Seq<u8>)> {
    match collection {
        Some((verified, key)) => Some((verified, key@)),
        None => None,
    }
}

/// Calls `CreateMetadataAccountV3::instruction`. Believed of it, for a unit
/// without creators, uses and collection details: the instruction is
/// addressed to the metadata program; it lists the metadata account
/// (writable), the mint, the mint authority (signer), the payer (writable,
/// signer), the update authority, the system program and, where given, the
/// rent account, in this order; and its data is a function of the
/// descriptive values alone. The call fails on a string of more than
/// `u32::MAX` bytes, which `requires` leaves out.
#[verifier::external_body]
fn metadata_instruction(
    metadata: [u8; 32],
    mint: [u8; 32],
    mint_authority: [u8; 32],
    payer: [u8; 32],
    update_authority: [u8; 32],
    update_authority_is_signer: bool,
    system_program: [u8; 32],
    rent: Option<[u8; 32]>,
    name: String,
    symbol: String,
    uri: String,
    seller_fee_basis_points: u16,
    creators: Option<Vec<Creator>>,
    collection: Option<(bool, [u8; 32])>,
    uses: Option<Uses>,
    is_mutable: bool,
    collection_details: Option<CollectionDetails>,
) -> (raw: RawInstruction)
    requires
        fits_wire(name@),
        fits_wire(symbol@),
        fits_wire(uri@),
        creators is None,
        uses is None,
        collection_details is None,
    ensures
        raw.0 == TOKEN_METADATA_PROGRAM,
        raw.1@ == metadata_accounts(
            metadata,
            mint,
            mint_authority,
            payer,
            update_authority,
            update_authority_is_signer,
            system_program,
            rent,
        ),
        raw.2@ == metadata_data(
            name@,
            symbol@,
            uri@,
            seller_fee_basis_points,
            tag_view(collection),
            is_mutable,
        ),
{
    let built = CreateMetadataAccountV3 {
        metadata: metadata.into(),
        mint: mint.into(),
        mint_authority: mint_authority.into(),
        payer: payer.into(),
        update_authority: (update_authority.into(), update_authority_is_signer),
        system_program: system_program.into(),
        rent: rent.map(Pubkey::from),
    }.instruction(CreateMetadataAccountV3InstructionArgs {
        data: DataV2 { name, symbol, uri, seller_fee_basis_points, creators, uses,
            collection: collection.map(|(verified, key)| Collection { verified, key: key.into() }) },
        is_mutable, collection_details,
    });
    let accounts = built.accounts.iter().map(|meta| (meta.pubkey.to_bytes(), meta.is_signer, meta.is_writable));
    (built.program_id.to_bytes(), accounts.collect(), built.data)
}

/// The accounts of a master edition instruction as the builder lists them.
pub open spec fn master_edition_accounts(call: CreateMasterEdition) -> Seq<([u8; 32], bool, bool)> {
    let fixed = seq![
        (call.edition.bytes, false, true),
        (call.mint.bytes, false, true),
        (call.update_authority.bytes, true, false),
        (call.mint_authority.bytes, true, false),
        (call.payer.bytes, true, true),
        (call.metadata.bytes, false, true),
        (call.token_program.bytes, false, false),
        (call.system_program.bytes, false, false),
    ];
    match call.rent {
        Some(rent) => fixed.push((rent.bytes, false, false)),
        None => fixed,
    }
}

/// Calls `CreateMasterEditionV3::instruction`. Believed of it: the
/// instruction is addressed to the metadata program; it lists the edition
/// account (writable), the mint (writable), the update authority (signer),
/// the mint authority (signer), the payer (writable, signer), the metadata
/// account (writable), the token program, the system program and, where
/// given, the rent account, in this order; and its data is a function of the
/// print limit alone.
#[verifier::external_body]
fn master_edition_instruction(call: CreateMasterEdition) -> (raw: RawInstruction)
    ensures
        raw.0 == TOKEN_METADATA_PROGRAM,
        raw.1@ == master_edition_accounts(call),
        raw.2@ == master_edition_data(call.max_supply),
{
    let key = |address: Address| Pubkey::from(address.bytes);
    let built = CreateMasterEditionV3 {
        edition: key(call.edition),
        mint: key(call.mint),
        update_authority: key(call.update_authority),
        mint_authority: key(call.mint_authority),
        payer: key(call.payer),
        metadata: key(call.metadata),
        token_program: key(call.token_program),
        system_program: key(call.system_program),
        rent: call.rent.map(key),
    }.instruction(CreateMasterEditionV3InstructionArgs { max_supply: call.max_supply });
    let accounts = built.accounts.iter().map(|meta| (meta.pubkey.to_bytes(), meta.is_signer, meta.is_writable));
    (built.program_id.to_bytes(), accounts.collect(), built.data)
}

impl Instruction {
    /// Puts an instruction together from its parts as a builder hands them
    /// over: the program's address, each account with whether it signs and
    /// whether it may be written to, and the data.
    pub fn from_parts(
        program_id: [u8; 32],
        raw_accounts: Vec<([u8; 32], bool, bool)>,
        data: Vec<u8>,
    ) -> (instruction: Instruction)
        ensures
            instruction.program_id.bytes == program_id,
            instruction.accounts@ == raw_accounts@.map_values(|meta| account_of(meta)),
            instruction.data == data,
    {
        let mut accounts: Vec<AccountMeta> = Vec::new();
        let mut i: usize = 0;
        while i < raw_accounts.len()
            invariant
                i <= raw_accounts.len(),
                accounts@ == raw_accounts@.take(i as int).map_values(|meta| account_of(meta)),
            decreases raw_accounts.len() - i,
        {
            let (bytes, is_signer, is_writable) = raw_accounts[i];
            accounts.push(AccountMeta { pubkey: Address { bytes }, is_signer, is_writable });
            i += 1;
            assert(accounts@ =~= raw_accounts@.take(i as int).map_values(|meta| account_of(meta)));
        }
        assert(raw_accounts@.take(i as int) =~= raw_accounts@);
        Instruction { program_id: Address { bytes: program_id }, accounts, data }
    }
}

impl CreateMetadata {
    /// The accounts of the instruction, in the order the metadata program
    /// reads them.
    pub open spec fn spec_accounts(&self) -> Seq<AccountMeta> {
        let fixed = seq![
            writable(self.metadata, false),
            readonly(self.mint, false),
            readonly(self.mint_authority, true),
            writable(self.payer, true),
            readonly(self.update_authority, self.update_authority_is_signer),
            readonly(self.system_program, false),
        ];
        match self.rent {
            Some(rent) => fixed.push(readonly(rent, false)),
            None => fixed,
        }
    }

    /// The instruction that asks the metadata program for this.
    pub open spec fn spec_instruction(&self) -> InstructionView {
        InstructionView {
            program_id: Address { bytes: TOKEN_METADATA_PROGRAM },
            accounts: self.spec_accounts(),
            data: metadata_data(
                self.data.name@,
                self.data.symbol@,
                self.data.uri@,
                self.data.seller_fee_basis_points,
                collection_view(self.data.collection),
                self.is_mutable,
            ),
        }
    }

    /// Whether the wire format can carry the three strings.
    pub open spec fn fits_wire(&self) -> bool {
        &&& fits_wire(self.data.name@)
        &&& fits_wire(self.data.symbol@)
        &&& fits_wire(self.data.uri@)
    }

    /// Builds the instruction that asks the metadata program for this, or
    /// none where one of the strings is too long for the wire format.
    pub fn instruction(&self) -> (instruction: Option<Instruction>)
        ensures
            match instruction {
                Some(built) => self.fits_wire() && built@ == self.spec_instruction(),
                None => !self.fits_wire(),
            },
    {
        if !(text_fits_wire(&self.data.name) && text_fits_wire(&self.data.symbol) && text_fits_wire(
            &self.data.uri,
        )) {
            return None;
        }
        let rent = match self.rent {
            Some(rent) => Some(rent.bytes),
            None => None,
        };
        let collection = match self.data.collection {
            Some(tag) => Some((tag.verified, tag.key.bytes)),
            None => None,
        };
        let raw = metadata_instruction(
            self.metadata.bytes,
            self.mint.bytes,
            self.mint_authority.bytes,
            self.payer.bytes,
            self.update_authority.bytes,
            self.update_authority_is_signer,
            self.system_program.bytes,
            rent,
            self.data.name.clone(),
            self.data.symbol.clone(),
            self.data.uri.clone(),
            self.data.seller_fee_basis_points,
            None,
            collection,
            None,
            self.is_mutable,
            None,
        );
        let built = Instruction::from_parts(raw.0, raw.1, raw.2);
        assert(built.accounts@ =~= self.spec_accounts());
        Some(built)
    }
}

impl CreateMasterEdition {
    /// The accounts of the instruction, in the order the metadata program
    /// reads them.
    pub open spec fn spec_accounts(&self) -> Seq<AccountMeta> {
        let fixed = seq![
            writable(self.edition, false),
            writable(self.mint, false),
            readonly(self.update_authority, true),
            readonly(self.mint_authority, true),
            writable(self.payer, true),
            writable(self.metadata, false),
            readonly(self.token_program, false),
            readonly(self.system_program, false),
        ];
        match self.rent {
            Some(rent) => fixed.push(readonly(rent, false)),
            None => fixed,
        }
    }

    /// The instruction that asks the metadata program for this.
    pub open spec fn spec_instruction(&self) -> InstructionView {
        InstructionView {
            program_id: Address { bytes: TOKEN_METADATA_PROGRAM },
            accounts: self.spec_accounts(),
            data: master_edition_data(self.max_supply),
        }
    }

    /// Builds the instruction that asks the metadata program for this.
    pub fn instruction(&self) -> (instruction: Instruction)
        ensures
            instruction@ == self.spec_instruction(),
    {
        let raw = master_edition_instruction(*self);
        let built = Instruction::from_parts(raw.0, raw.1, raw.2);
        assert(built.accounts@ =~= self.spec_accounts());
        built
    }
}

} // verus!
