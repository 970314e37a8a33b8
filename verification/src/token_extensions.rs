//! Which token extensions a pool accepts, and the type-length-value walk
//! that lists the extensions a mint carries.

use vstd::prelude::*;

use crate::errors::ErrorCode;

verus! {

/// Extension type numbers of the extended token standard, as stored in a
/// mint's type-length-value region.
pub const EXTENSION_UNINITIALIZED: u16 = 0;

pub const EXTENSION_TRANSFER_FEE_CONFIG: u16 = 1;

pub const EXTENSION_MINT_CLOSE_AUTHORITY: u16 = 3;

pub const EXTENSION_CONFIDENTIAL_TRANSFER_MINT: u16 = 4;

pub const EXTENSION_DEFAULT_ACCOUNT_STATE: u16 = 6;

pub const EXTENSION_NON_TRANSFERABLE: u16 = 9;

pub const EXTENSION_INTEREST_BEARING_CONFIG: u16 = 10;

pub const EXTENSION_PERMANENT_DELEGATE: u16 = 12;

pub const EXTENSION_TRANSFER_HOOK: u16 = 14;

pub const EXTENSION_CONFIDENTIAL_TRANSFER_FEE_CONFIG: u16 = 16;

pub const EXTENSION_METADATA_POINTER: u16 = 18;

pub const EXTENSION_TOKEN_METADATA: u16 = 19;

pub const EXTENSION_SCALED_UI_AMOUNT: u16 = 25;

pub const EXTENSION_PAUSABLE: u16 = 26;

/// The largest extension type number the walk recognises.
pub const EXTENSION_MAX_KNOWN: u16 = 27;

/// The extension type numbers in `data` from `cursor` on: each entry is a
/// 2-byte type, a 2-byte length, and that many value bytes. The walk stops
/// quietly at a trailing fragment or an uninitialized entry, and rejects
/// truncated or unknown entries with `None`.
pub open spec fn parse_tlv(data: Seq<u8>, cursor: nat) -> Option<Seq<u16>>
    decreases data.len() - cursor when cursor <= data.len()
{
    if cursor + 2 > data.len() {
        Some(Seq::empty())
    } else {
        let ty = data[cursor as int] + data[cursor as int + 1] * 0x100;
        if ty == EXTENSION_UNINITIALIZED {
            Some(Seq::empty())
        } else if ty > EXTENSION_MAX_KNOWN {
            None
        } else if cursor + 4 > data.len() {
            None
        } else {
            let length = data[cursor as int + 2] + data[cursor as int + 3] * 0x100;
            let value_end: nat = (cursor + 4 + length) as nat;
            if value_end > data.len() {
                None
            } else {
                match parse_tlv(data, value_end) {
                    Some(rest) => Some(seq![ty as u16] + rest),
                    None => None,
                }
            }
        }
    }
}

/// Walks a mint's type-length-value region and lists its extension types.
/// Malformed or unrecognised entries make the mint unsupportable.
pub fn get_token_extension_types(tlv_data: &Vec<u8>) -> (r: Result<Vec<u16>, ErrorCode>)
    ensures
        parse_tlv(tlv_data@, 0) is Some ==> (r is Ok && r->Ok_0@ == parse_tlv(tlv_data@, 0)->0),
        parse_tlv(tlv_data@, 0) is None ==> r == Err::<Vec<u16>, ErrorCode>(
            ErrorCode::UnsupportedTokenMint,
        ),
{
    let mut extension_types: Vec<u16> = Vec::new();
    let mut cursor: usize = 0;
    loop
        invariant
            cursor <= tlv_data@.len(),
            match parse_tlv(tlv_data@, cursor as nat) {
                Some(rest) => parse_tlv(tlv_data@, 0) == Some(extension_types@ + rest),
                None => parse_tlv(tlv_data@, 0) is None,
            },
        decreases tlv_data@.len() - cursor,
    {
        let remaining = tlv_data.len() - cursor;
        if remaining < 2 {
            proof {
                assert(parse_tlv(tlv_data@, cursor as nat) == Some(Seq::<u16>::empty()));
                assert(extension_types@ + Seq::<u16>::empty() =~= extension_types@);
            }
            return Ok(extension_types);
        }
        let ty: u16 = (tlv_data[cursor] as u16) + (tlv_data[cursor + 1] as u16) * 0x100;
        if ty == EXTENSION_UNINITIALIZED {
            proof {
                assert(extension_types@ + Seq::<u16>::empty() =~= extension_types@);
            }
            return Ok(extension_types);
        }
        if ty > EXTENSION_MAX_KNOWN {
            return Err(ErrorCode::UnsupportedTokenMint);
        }
        if remaining < 4 {
            return Err(ErrorCode::UnsupportedTokenMint);
        }
        let length: u16 = (tlv_data[cursor + 2] as u16) + (tlv_data[cursor + 3] as u16) * 0x100;
        if (length as usize) > remaining - 4 {
            return Err(ErrorCode::UnsupportedTokenMint);
        }
        let value_end: usize = cursor + 4 + (length as usize);
        let ghost old_list = extension_types@;
        extension_types.push(ty);
        proof {
            match parse_tlv(tlv_data@, value_end as nat) {
                Some(rest) => {
                    assert(parse_tlv(tlv_data@, cursor as nat) == Some(seq![ty] + rest));
                    assert(old_list + (seq![ty] + rest) =~= extension_types@ + rest);
                },
                None => {},
            }
        }
        cursor = value_end;
    }
}

/// Whether one extension is compatible with pools: a few are always fine, a
/// few only for badged mints, and the rest never.
pub open spec fn extension_supported(ty: u16, is_token_badge_initialized: bool) -> bool {
    if ty == EXTENSION_TRANSFER_FEE_CONFIG || ty == EXTENSION_INTEREST_BEARING_CONFIG || ty
        == EXTENSION_TOKEN_METADATA || ty == EXTENSION_METADATA_POINTER || ty
        == EXTENSION_SCALED_UI_AMOUNT || ty == EXTENSION_CONFIDENTIAL_TRANSFER_MINT || ty
        == EXTENSION_CONFIDENTIAL_TRANSFER_FEE_CONFIG {
        true
    } else if ty == EXTENSION_PERMANENT_DELEGATE || ty == EXTENSION_TRANSFER_HOOK || ty
        == EXTENSION_MINT_CLOSE_AUTHORITY || ty == EXTENSION_DEFAULT_ACCOUNT_STATE || ty
        == EXTENSION_PAUSABLE {
        is_token_badge_initialized
    } else {
        false
    }
}

/// Whether a mint is acceptable for pools, judged from plain facts about
/// it: mints of the legacy token program always are; the extended native
/// mint never is; a freeze authority needs a badge; and every extension
/// must be supported (with the badge where required).
#[verifier::loop_isolation(false)]
pub fn is_supported_token_mint(
    owned_by_legacy_token_program: bool,
    is_native_mint: bool,
    has_freeze_authority: bool,
    tlv_data: &Vec<u8>,
    is_token_badge_initialized: bool,
) -> (r: Result<bool, ErrorCode>)
    ensures
        owned_by_legacy_token_program ==> r == Ok::<bool, ErrorCode>(true),
        !owned_by_legacy_token_program && is_native_mint ==> r == Ok::<bool, ErrorCode>(false),
        !owned_by_legacy_token_program && !is_native_mint && has_freeze_authority
            && !is_token_badge_initialized ==> r == Ok::<bool, ErrorCode>(false),
        !owned_by_legacy_token_program && !is_native_mint && (!has_freeze_authority
            || is_token_badge_initialized) ==> ({
            match parse_tlv(tlv_data@, 0) {
                Some(extensions) => r == Ok::<bool, ErrorCode>(
                    forall|i: int|
                        0 <= i < extensions.len() ==> extension_supported(
                            #[trigger] extensions[i],
                            is_token_badge_initialized,
                        ),
                ),
                None => r == Err::<bool, ErrorCode>(ErrorCode::UnsupportedTokenMint),
            }
        }),
{
    if owned_by_legacy_token_program {
        return Ok(true);
    }
    // reject the extended native mint to avoid fragmenting its liquidity
    if is_native_mint {
        return Ok(false);
    }
    if has_freeze_authority && !is_token_badge_initialized {
        return Ok(false);
    }
    let extensions = match get_token_extension_types(tlv_data) {
        Ok(v) => v,
        Err(e) => {
            return Err(e);
        },
    };
    let mut i: usize = 0;
    while i < extensions.len()
        invariant
            i <= extensions@.len(),
            forall|k: int|
                0 <= k < i ==> extension_supported(
                    #[trigger] extensions@[k],
                    is_token_badge_initialized,
                ),
        decreases extensions@.len() - i,
    {
        let ty = extensions[i];
        let ok = if ty == EXTENSION_TRANSFER_FEE_CONFIG || ty == EXTENSION_INTEREST_BEARING_CONFIG
            || ty == EXTENSION_TOKEN_METADATA || ty == EXTENSION_METADATA_POINTER || ty
            == EXTENSION_SCALED_UI_AMOUNT || ty == EXTENSION_CONFIDENTIAL_TRANSFER_MINT || ty
            == EXTENSION_CONFIDENTIAL_TRANSFER_FEE_CONFIG {
            true
        } else if ty == EXTENSION_PERMANENT_DELEGATE || ty == EXTENSION_TRANSFER_HOOK || ty
            == EXTENSION_MINT_CLOSE_AUTHORITY || ty == EXTENSION_DEFAULT_ACCOUNT_STATE || ty
            == EXTENSION_PAUSABLE {
            is_token_badge_initialized
        } else {
            false
        };
        if !ok {
            proof {
                assert(!extension_supported(
                    extensions@[i as int],
                    is_token_badge_initialized,
                ));
            }
            return Ok(false);
        }
        i = i + 1;
    }
    Ok(true)
}

/// `is_supported_token_mint` as a requirement: an unsupported mint is an
/// error.
pub fn verify_supported_token_mint(
    owned_by_legacy_token_program: bool,
    is_native_mint: bool,
    has_freeze_authority: bool,
    tlv_data: &Vec<u8>,
    is_token_badge_initialized: bool,
) -> (r: Result<(), ErrorCode>)
    ensures
        r is Err ==> r == Err::<(), ErrorCode>(ErrorCode::UnsupportedTokenMint),
        owned_by_legacy_token_program ==> r is Ok,
{
    let supported = match is_supported_token_mint(
        owned_by_legacy_token_program,
        is_native_mint,
        has_freeze_authority,
        tlv_data,
        is_token_badge_initialized,
    ) {
        Ok(v) => v,
        Err(e) => {
            return Err(e);
        },
    };
    if !supported {
        return Err(ErrorCode::UnsupportedTokenMint);
    }
    Ok(())
}

} // verus!
