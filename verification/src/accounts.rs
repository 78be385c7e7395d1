//! The accounts an invocation is given, and the checks they must pass.

use vstd::prelude::*;

verus! {

/// Why a list of accounts was turned away.
#[derive(Clone, Copy, Debug, PartialEq, Eq)]
pub enum ErrorCode {
    /// Fewer accounts were given than the instruction takes.
    AccountNotEnoughKeys,
    /// The account did not sign the transaction.
    AccountNotSigner,
    /// The account was not given as writable.
    ConstraintMut,
}

/// One account as the runtime presents it to the program.
#[derive(Clone, Copy, Debug, PartialEq, Eq)]
pub struct AccountInfo {
    /// The account's address.
    pub key: [u8; 32],
    /// Whether the account's key signed the transaction.
    pub is_signer: bool,
    /// Whether the program may write to the account.
    pub is_writable: bool,
}

/// An account that signed the transaction.
///
/// A value of this type exists only for an account whose `is_signer` is set.
#[derive(Debug)]
pub struct Signer {
    info: AccountInfo,
}

impl View for Signer {
    type V = AccountInfo;

    closed spec fn view(&self) -> AccountInfo {
        self.info
    }
}

impl Signer {
    #[verifier::type_invariant]
    spec fn signed(self) -> bool {
        self.info.is_signer
    }

    /// Accepts `info` as a signer if it signed the transaction.
    pub fn try_from(info: &AccountInfo) -> (result: Result<Signer, ErrorCode>)
        ensures
            match result {
                Ok(signer) => info.is_signer && signer@ == *info,
                Err(e) => !info.is_signer && e == ErrorCode::AccountNotSigner,
            },
    {
        if !info.is_signer {
            return Err(ErrorCode::AccountNotSigner);
        }
        Ok(Signer { info: *info })
    }

    /// The signer's address.
    pub fn key(&self) -> (key: &[u8; 32])
        ensures
            *key == self@.key,
    {
        &self.info.key
    }

    /// The account behind the signer. Its `is_signer` is always set.
    pub fn info(&self) -> (info: &AccountInfo)
        ensures
            *info == self@,
            info.is_signer,
    {
        proof {
            use_type_invariant(self);
        }
        &self.info
    }
}

/// What `Initialize::try_accounts` returns for `accounts`, with the context
/// given by the account it holds.
pub open spec fn validate(accounts: Seq<AccountInfo>) -> Result<AccountInfo, ErrorCode> {
    if accounts.len() == 0 {
        Err(ErrorCode::AccountNotEnoughKeys)
    } else if !accounts[0].is_signer {
        Err(ErrorCode::AccountNotSigner)
    } else if !accounts[0].is_writable {
        Err(ErrorCode::ConstraintMut)
    } else {
        Ok(accounts[0])
    }
}

/// The accounts of the `initialize` instruction: the signer, given as
/// writable.
///
/// A value of this type exists only for an account that signed the
/// transaction and is writable.
#[derive(Debug)]
pub struct Initialize {
    signer: Signer,
}

impl View for Initialize {
    type V = AccountInfo;

    closed spec fn view(&self) -> AccountInfo {
        self.signer.info
    }
}

impl Initialize {
    #[verifier::type_invariant]
    spec fn constrained(self) -> bool {
        self.signer.info.is_signer && self.signer.info.is_writable
    }

    /// Takes the instruction's accounts from the front of `accounts`.
    ///
    /// The first account must have signed and be writable; accounts after
    /// the first are left alone.
    pub fn try_accounts(accounts: &[AccountInfo]) -> (result: Result<Initialize, ErrorCode>)
        ensures
            match result {
                Ok(ctx) => validate(accounts@) == Ok::<AccountInfo, ErrorCode>(ctx@),
                Err(e) => validate(accounts@) == Err::<AccountInfo, ErrorCode>(e),
            },
    {
        if accounts.len() == 0 {
            return Err(ErrorCode::AccountNotEnoughKeys);
        }
        let signer = match Signer::try_from(&accounts[0]) {
            Ok(signer) => signer,
            Err(e) => {
                return Err(e);
            },
        };
        if !signer.info().is_writable {
            return Err(ErrorCode::ConstraintMut);
        }
        Ok(Initialize { signer })
    }

    /// The account that signed. It signed and is writable, always.
    pub fn signer(&self) -> (signer: &Signer)
        ensures
            signer@ == self@,
            self@.is_signer,
            self@.is_writable,
    {
        proof {
            use_type_invariant(self);
        }
        &self.signer
    }
}

} // verus!
