//! Input validation applied before records are created.

use vstd::prelude::*;
use crate::constants::{
    MAX_BITCOIN_ADDRESS_LENGTH, MAX_BUSINESS_NAME_LENGTH, MAX_FIAT_CENTS,
    MAX_INVOICE_DESCRIPTION_LENGTH, MAX_SATOSHI_SUPPLY, MIN_BITCOIN_ADDRESS_LENGTH,
};
use crate::errors::IrisError;

verus! {

/// Whitespace for the purpose of deciding that a field is effectively empty.
pub open spec fn is_space_char(c: char) -> bool {
    c == ' ' || c == '\t' || c == '\n' || c == '\r'
}

/// A string with no visible character at all.
pub open spec fn is_blank(s: Seq<char>) -> bool {
    forall|i: int| 0 <= i < s.len() ==> is_space_char(s[i])
}

/// Stateless validation helpers.
pub struct ValidationUtils;

impl ValidationUtils {
    /// Whether `s` consists only of whitespace (or is empty).
    pub fn is_blank_string(s: &String) -> (r: bool)
        ensures
            r == is_blank(s@),
    {
        let n = s.as_str().unicode_len();
        let mut i: usize = 0;
        while i < n
            invariant
                i <= n,
                n == s@.len(),
                forall|j: int| 0 <= j < i ==> is_space_char(s@[j]),
            decreases n - i,
        {
            let c = s.as_str().get_char(i);
            if !(c == ' ' || c == '\t' || c == '\n' || c == '\r') {
                return false;
            }
            i = i + 1;
        }
        true
    }

    /// Accepts a business name that shows at least one visible character and
    /// stays within `MAX_BUSINESS_NAME_LENGTH` characters.
    pub fn validate_business_name(name: &String) -> (r: Result<(), IrisError>)
        ensures
            r is Ok <==> !is_blank(name@) && name@.len() <= MAX_BUSINESS_NAME_LENGTH,
            r is Err ==> r == Err::<(), IrisError>(IrisError::InvalidInput),
    {
        if Self::is_blank_string(name) {
            return Err(IrisError::InvalidInput);
        }
        if name.as_str().unicode_len() > MAX_BUSINESS_NAME_LENGTH {
            return Err(IrisError::InvalidInput);
        }
        Ok(())
    }

    /// Accepts a fiat amount in cents that is positive and at most
    /// `MAX_FIAT_CENTS`.
    pub fn validate_fiat_amount(amount_cents: u64) -> (r: Result<(), IrisError>)
        ensures
            r is Ok <==> 0 < amount_cents <= MAX_FIAT_CENTS,
            r is Err ==> r == Err::<(), IrisError>(IrisError::InvalidInput),
    {
        if amount_cents == 0 {
            return Err(IrisError::InvalidInput);
        }
        if amount_cents > MAX_FIAT_CENTS {
            return Err(IrisError::InvalidInput);
        }
        Ok(())
    }

    /// Accepts an address string that is not blank and whose length is
    /// plausible for the settlement network.
    pub fn validate_bitcoin_address(address: &String) -> (r: Result<(), IrisError>)
        ensures
            r is Ok <==> !is_blank(address@) && MIN_BITCOIN_ADDRESS_LENGTH <= address@.len()
                <= MAX_BITCOIN_ADDRESS_LENGTH,
            r is Err ==> r == Err::<(), IrisError>(IrisError::InvalidInput),
    {
        if Self::is_blank_string(address) {
            return Err(IrisError::InvalidInput);
        }
        let len = address.as_str().unicode_len();
        if len < MIN_BITCOIN_ADDRESS_LENGTH || len > MAX_BITCOIN_ADDRESS_LENGTH {
            return Err(IrisError::InvalidInput);
        }
        Ok(())
    }

    /// Accepts a missing description, or one within
    /// `MAX_INVOICE_DESCRIPTION_LENGTH` characters.
    pub fn validate_invoice_description(description: &Option<String>) -> (r: Result<
        (),
        IrisError,
    >)
        ensures
            r is Ok <==> (description matches Some(d) ==> d@.len()
                <= MAX_INVOICE_DESCRIPTION_LENGTH),
            r is Err ==> r == Err::<(), IrisError>(IrisError::InvalidInput),
    {
        match description {
            Some(desc) => {
                if desc.as_str().unicode_len() > MAX_INVOICE_DESCRIPTION_LENGTH {
                    Err(IrisError::InvalidInput)
                } else {
                    Ok(())
                }
            },
            None => Ok(()),
        }
    }

    /// Accepts a satoshi amount that is positive and within the total supply.
    pub fn validate_satoshi_amount(amount: u64) -> (r: Result<(), IrisError>)
        ensures
            r is Ok <==> 0 < amount <= MAX_SATOSHI_SUPPLY,
            r is Err ==> r == Err::<(), IrisError>(IrisError::InvalidInput),
    {
        if amount == 0 {
            return Err(IrisError::InvalidInput);
        }
        if amount > MAX_SATOSHI_SUPPLY {
            return Err(IrisError::InvalidInput);
        }
        Ok(())
    }
}

} // verus!
