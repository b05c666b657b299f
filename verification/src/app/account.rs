//! Who is logged in, and what the services say.

use vstd::prelude::*;
use crate::app::nav::Connection;
use crate::app::panes::LoadState;
use crate::model::{UserInfo, VipInfo};
use crate::text::{opt, same};

verus! {

/// Who is logged in, and what the services say.
#[derive(Debug)]
pub struct Account<S = String> {
    pub logged_in: bool,
    pub user_info: Option<UserInfo>,
    pub user_info_load: LoadState<S>,
    pub vip_info: Option<VipInfo>,
    pub vip_claiming: bool,
    pub vip_claimed_day: Option<S>,
    /// When a login code was asked for last.
    pub last_qr_key_at: Option<u64>,
    pub connection: Connection,
    pub cache_bytes: u64,
}

impl View for Account<String> {
    type V = Account<Seq<char>>;

    open spec fn view(&self) -> Account<Seq<char>> {
        Account {
            logged_in: self.logged_in,
            user_info: self.user_info,
            user_info_load: self.user_info_load@,
            vip_info: self.vip_info,
            vip_claiming: self.vip_claiming,
            vip_claimed_day: opt(self.vip_claimed_day),
            last_qr_key_at: self.last_qr_key_at,
            connection: self.connection,
            cache_bytes: self.cache_bytes,
        }
    }
}

/// The view of the account, folded: what is said of the whole program need not
/// look inside.
#[verifier::opaque]
pub open spec fn account_view(account: Account<String>) -> Account<Seq<char>> {
    account@
}

impl Account<Seq<char>> {
    /// Nothing has been asked of the services yet.
    pub open spec fn fresh(logged_in: bool) -> Self {
        Account {
            logged_in,
            user_info: None,
            user_info_load: LoadState::Idle,
            vip_info: None,
            vip_claiming: false,
            vip_claimed_day: None,
            last_qr_key_at: None,
            connection: Connection::Unknown,
            cache_bytes: 0,
        }
    }
}

impl Account<String> {
    pub fn new(logged_in: bool) -> (r: Self)
        ensures
            account_view(r) == Account::<Seq<char>>::fresh(logged_in),
    {
        proof {
            reveal(account_view);
        }
        Account {
            logged_in,
            user_info: None,
            user_info_load: LoadState::Idle,
            vip_info: None,
            vip_claiming: false,
            vip_claimed_day: None,
            last_qr_key_at: None,
            connection: Connection::Unknown,
            cache_bytes: 0,
        }
    }

    pub fn vip_claimed_day(&self) -> (r: Option<String>)
        ensures
            opt(r) == account_view(*self).vip_claimed_day,
    {
        proof {
            reveal(account_view);
        }
        crate::source::copy_opt(&self.vip_claimed_day)
    }

    pub fn logged_in(&self) -> (r: bool)
        ensures
            r == account_view(*self).logged_in,
    {
        proof {
            reveal(account_view);
        }
        self.logged_in
    }

    pub fn vip_claiming(&self) -> (r: bool)
        ensures
            r == account_view(*self).vip_claiming,
    {
        proof {
            reveal(account_view);
        }
        self.vip_claiming
    }

    pub fn last_qr_key_at(&self) -> (r: Option<u64>)
        ensures
            r == account_view(*self).last_qr_key_at,
    {
        proof {
            reveal(account_view);
        }
        self.last_qr_key_at
    }

    pub fn connection(&self) -> (r: Connection)
        ensures
            r == account_view(*self).connection,
    {
        proof {
            reveal(account_view);
        }
        self.connection
    }

    pub fn set_logged_in(&mut self, logged_in: bool)
        ensures
            account_view(*final(self)) == (Account { logged_in, ..account_view(*old(self)) }),
    {
        proof {
            reveal(account_view);
        }
        self.logged_in = logged_in;
    }

    pub fn set_user_info(&mut self, user_info: Option<UserInfo>)
        ensures
            account_view(*final(self)) == (Account { user_info, ..account_view(*old(self)) }),
    {
        proof {
            reveal(account_view);
        }
        self.user_info = user_info;
    }

    pub fn set_user_info_load(&mut self, user_info_load: LoadState<String>)
        ensures
            account_view(*final(self)) == (Account {
                user_info_load: user_info_load@,
                ..account_view(*old(self))
            }),
    {
        proof {
            reveal(account_view);
        }
        self.user_info_load = user_info_load;
    }

    pub fn set_vip_info(&mut self, vip_info: Option<VipInfo>)
        ensures
            account_view(*final(self)) == (Account { vip_info, ..account_view(*old(self)) }),
    {
        proof {
            reveal(account_view);
        }
        self.vip_info = vip_info;
    }

    pub fn set_vip_claiming(&mut self, vip_claiming: bool)
        ensures
            account_view(*final(self)) == (Account { vip_claiming, ..account_view(*old(self)) }),
    {
        proof {
            reveal(account_view);
        }
        self.vip_claiming = vip_claiming;
    }

    pub fn set_vip_claimed_day(&mut self, vip_claimed_day: Option<String>)
        ensures
            account_view(*final(self)) == (Account {
                vip_claimed_day: opt(vip_claimed_day),
                ..account_view(*old(self))
            }),
    {
        proof {
            reveal(account_view);
        }
        self.vip_claimed_day = vip_claimed_day;
    }

    pub fn set_last_qr_key_at(&mut self, last_qr_key_at: Option<u64>)
        ensures
            account_view(*final(self)) == (Account { last_qr_key_at, ..account_view(*old(self)) }),
    {
        proof {
            reveal(account_view);
        }
        self.last_qr_key_at = last_qr_key_at;
    }

    pub fn set_connection(&mut self, connection: Connection)
        ensures
            account_view(*final(self)) == (Account { connection, ..account_view(*old(self)) }),
    {
        proof {
            reveal(account_view);
        }
        self.connection = connection;
    }

    pub fn set_cache_bytes(&mut self, cache_bytes: u64)
        ensures
            account_view(*final(self)) == (Account { cache_bytes, ..account_view(*old(self)) }),
    {
        proof {
            reveal(account_view);
        }
        self.cache_bytes = cache_bytes;
    }

    /// Whether the membership of this day is known to be claimed.
    pub fn claimed_on(&self, day: &str) -> (r: bool)
        ensures
            r == (account_view(*self).vip_claimed_day == Some(day@)),
    {
        proof {
            reveal(account_view);
        }
        match &self.vip_claimed_day {
            Some(claimed) => same(claimed.as_str(), day),
            None => false,
        }
    }
}

} // verus!
