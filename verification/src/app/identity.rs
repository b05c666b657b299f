//! Logging in, the services and the membership.

use vstd::prelude::*;
use crate::app::account::Account;
use crate::app::conf;
use crate::app::effect::{AfterSave, Effect, Purpose};
use crate::app::nav::{ConfirmAction, Focus, Tab};
use crate::app::panels::Panels;
use crate::app::panes::{LoadState, LoginState};
use crate::app::screen::Screen;
use crate::app::state::{App, AppView};
use crate::config::Config;
use crate::error::AppError;
use crate::source::SourceKind;
use crate::text::{cat2, cat3, cat5, dec, dec_text, opt};

verus! {

/// How long one waits before the next login code, in milliseconds.
pub const QR_KEY_COOLDOWN_MS: u64 = 30_000;

/// The services that one can log in to.
pub open spec fn login_candidates() -> Seq<SourceKind> {
    login_candidate(SourceKind::Kugou) + login_candidate(SourceKind::KugouConcept)
        + login_candidate(SourceKind::Netease)
}

pub open spec fn login_candidate(kind: SourceKind) -> Seq<SourceKind> {
    if kind.can().login {
        seq![kind]
    } else {
        Seq::empty()
    }
}

fn list_login_candidates() -> (r: Vec<SourceKind>)
    ensures
        r@ == login_candidates(),
{
    let mut kinds: Vec<SourceKind> = Vec::new();
    if SourceKind::Kugou.capability().login {
        kinds.push(SourceKind::Kugou);
    }
    if SourceKind::KugouConcept.capability().login {
        kinds.push(SourceKind::KugouConcept);
    }
    if SourceKind::Netease.capability().login {
        kinds.push(SourceKind::Netease);
    }
    assert(kinds@ =~= login_candidates());
    kinds
}

/// How many services one can log in to.
pub fn count_login_candidates() -> (r: usize)
    ensures
        r == login_candidates().len(),
{
    list_login_candidates().len()
}

/// The place of a service in a list, from `from` on; the first place where it is
/// not in it.
pub open spec fn place_of_kind(kinds: Seq<SourceKind>, kind: SourceKind, from: int) -> usize
    decreases kinds.len() - from,
{
    if from < 0 || from >= kinds.len() {
        0
    } else if kinds[from] == kind {
        from as usize
    } else {
        place_of_kind(kinds, kind, from + 1)
    }
}

fn find_kind(kinds: &Vec<SourceKind>, kind: SourceKind) -> (r: usize)
    ensures
        r == place_of_kind(kinds@, kind, 0),
{
    let mut i: usize = 0;
    while i < kinds.len()
        invariant
            i <= kinds@.len(),
            place_of_kind(kinds@, kind, 0) == place_of_kind(kinds@, kind, i as int),
        decreases kinds@.len() - i,
    {
        if kinds[i] == kind {
            return i;
        }
        i = i + 1;
    }
    0
}

/// How many seconds one still has to wait for a login code.
pub open spec fn code_wait(now_ms: u64, last: Option<u64>) -> Option<u64> {
    match last {
        Some(at) => {
            let waited: int = if now_ms >= at {
                now_ms - at
            } else {
                0
            };
            if waited < QR_KEY_COOLDOWN_MS {
                Some(((QR_KEY_COOLDOWN_MS - waited) / 1_000 + 1) as u64)
            } else {
                None
            }
        },
        None => None,
    }
}

fn seconds_to_wait(now_ms: u64, last: Option<u64>) -> (r: Option<u64>)
    ensures
        r == code_wait(now_ms, last),
{
    match last {
        Some(at) => {
            let waited: u64 = if now_ms >= at {
                now_ms - at
            } else {
                0
            };
            if waited < QR_KEY_COOLDOWN_MS {
                Some((QR_KEY_COOLDOWN_MS - waited) / 1_000 + 1)
            } else {
                None
            }
        },
        None => None,
    }
}

impl AppView {
    /// Stores the identity and asks for the settings to be saved.
    #[verifier::opaque]
    pub open spec fn save_config(self, after: AfterSave<Seq<char>>) -> AppView {
        self.with_config(self.state.config.synced()).emit(Effect::SaveConfig(after))
    }

    /// Asks for the account's data; without a login there are none.
    #[verifier::opaque]
    pub open spec fn fetch_user_info(self) -> AppView {
        if !self.state.account.logged_in {
            self.with_account(
                Account { user_info: None, user_info_load: LoadState::Idle, ..self.state.account },
            )
        } else {
            self.with_account(
                Account { user_info_load: LoadState::Loading, ..self.state.account },
            ).emit(Effect::UserDetail { source: self.source() })
        }
    }

    /// Asks for the membership where the service has one.
    #[verifier::opaque]
    pub open spec fn fetch_vip_status(self) -> AppView {
        if !self.state.account.logged_in || !self.source().can().vip {
            self.with_account(Account { vip_info: None, ..self.state.account })
        } else {
            self.emit(Effect::VipDetail)
        }
    }

    #[verifier::opaque]
    pub open spec fn start_vip_sync(self, day: Seq<char>, manual: bool) -> AppView {
        self.with_client(SourceKind::KugouConcept, Purpose::Vip { day, manual })
    }

    /// Claims the day's membership by itself: only for the service that has it,
    /// and not where this day is known to be claimed.
    #[verifier::opaque]
    pub open spec fn maybe_claim_daily_vip(self) -> AppView {
        if !self.state.account.logged_in || self.source() != SourceKind::KugouConcept {
            self
        } else {
            match self.clock.today {
                Some(day) => if self.state.account.vip_claimed_day == Some(day) {
                    self
                } else {
                    self.start_vip_sync(day, false)
                },
                None => self,
            }
        }
    }

    /// Claims the day's membership because the user asks for it.
    #[verifier::opaque]
    pub open spec fn claim_daily_vip(self) -> AppView {
        if self.state.account.vip_claiming {
            self
        } else if !self.state.account.logged_in {
            self.warn("领取 VIP 需要先登录（按 L 扫码）"@)
        } else if self.source() != SourceKind::KugouConcept {
            self.warn("领取 VIP 是概念版专属功能，先按 v 切到「酷狗概念版」"@)
        } else {
            match self.clock.today {
                Some(day) => self.start_vip_sync(day, true),
                None => self.warn("取不到本地日期，无法领取 VIP（可到手机端领取）"@),
            }
        }
    }

    /// Asks for the fingerprint of the device where the service wants one and
    /// none is known.
    #[verifier::opaque]
    pub open spec fn ensure_device_fingerprint(self) -> AppView {
        if self.source().fingerprinted() && self.state.config.dfid is None {
            self.emit(Effect::DeviceFingerprint)
        } else {
            self
        }
    }

    #[verifier::opaque]
    pub open spec fn open_login_picker(self) -> AppView {
        let kinds = login_candidates();
        if kinds.len() == 0 {
            self.warn("当前没有任何音源支持登录"@)
        } else if kinds.len() == 1 {
            self.begin_login_for(kinds[0])
        } else {
            self.with_panels(
                Panels {
                    login_picker: Some(place_of_kind(kinds, self.source(), 0)),
                    ..self.state.panels
                },
            )
        }
    }

    #[verifier::opaque]
    pub open spec fn confirm_login_source(self) -> AppView {
        let closed = self.with_panels(Panels { login_picker: None, ..self.state.panels });
        match self.state.panels.login_picker {
            Some(i) => if i < login_candidates().len() {
                closed.begin_login_for(login_candidates()[i as int])
            } else {
                closed
            },
            None => self,
        }
    }

    /// Logs in to a service; where another one is in use, that is switched first.
    #[verifier::opaque]
    pub open spec fn begin_login_for(self, kind: SourceKind) -> AppView {
        if kind != self.source() {
            self.switch_source_with(kind, true)
        } else {
            self.login_or_confirm()
        }
    }

    /// Where one is logged in already, asks before the login is replaced.
    #[verifier::opaque]
    pub open spec fn login_or_confirm(self) -> AppView {
        if self.state.account.logged_in {
            self.with_panels(
                Panels { pending_confirm: Some(ConfirmAction::Relogin), ..self.state.panels },
            )
        } else {
            self.begin_login()
        }
    }

    /// Forgets the login, but not the fingerprint, and logs in anew.
    #[verifier::opaque]
    pub open spec fn relogin(self) -> AppView {
        let config = Config { cookie: None, ..self.state.config };
        self.with_config(config).with_account(
            Account { logged_in: false, ..self.state.account },
        ).emit(Effect::SetCookie(config.header())).begin_login()
    }

    /// Asks for a login code; not while one is shown, and not too often.
    #[verifier::opaque]
    pub open spec fn begin_login(self) -> AppView {
        if self.state.panels.login matches Some(login) && !login.finished {
            self.info("登录已在进行中，扫码或按 Esc 取消"@)
        } else {
            match code_wait(self.clock.now_ms, self.state.account.last_qr_key_at) {
                Some(left) => self.warn(
                    "取二维码太频繁了，请 "@ + dec(left as nat)
                        + " 秒后再按 L（频繁申请会被服务端限流）"@,
                ),
                None => self.with_account(
                    Account { last_qr_key_at: Some(self.clock.now_ms), ..self.state.account },
                ).with_panels(
                    self.state.panels.with_login(
                        Some(fresh_login("正在获取二维码…"@, false, false)),
                    ),
                ).emit(Effect::LoginQr { source: self.source() }),
            }
        }
    }

    /// Asks what became of the code that is shown.
    #[verifier::opaque]
    pub open spec fn poll_login(self) -> AppView {
        match self.state.panels.login {
            Some(login) => if login.finished || login.key.len() == 0 {
                self
            } else {
                self.emit(Effect::LoginCheck { source: self.source(), key: login.key })
            },
            None => self,
        }
    }

    #[verifier::opaque]
    pub open spec fn finish_login(self, succeeded: bool, message: Seq<char>) -> AppView {
        self.with_panels(
            self.state.panels.with_login(Some(fresh_login(message, true, succeeded))),
        )
    }

    #[verifier::opaque]
    pub open spec fn set_logged_in(self, logged_in: bool) -> AppView {
        self.with_account(Account { logged_in, ..self.state.account })
    }

    /// The service keeps the login to itself.
    #[verifier::opaque]
    pub open spec fn finish_server_side_login(self) -> AppView {
        self.set_logged_in(true).finish_login(
            true,
            "「"@ + self.source().name() + "」已在服务端完成登录（凭据由 "@
                + self.source().service() + " 保管，未写入本地配置）"@,
        )
    }

    /// A cookie is stored and used from now on.
    #[verifier::opaque]
    pub open spec fn use_cookie(self, cookie: Seq<char>, after: AfterSave<Seq<char>>) -> AppView {
        let config = Config { cookie: Some(cookie), ..self.state.config };
        self.with_config(config).emit(Effect::SetCookie(config.header())).save_config(after)
    }

    #[verifier::opaque]
    pub open spec fn apply_login(self, token: Seq<char>, userid: Seq<char>) -> AppView {
        self.use_cookie(
            "token="@ + token + "; userid="@ + userid,
            AfterSave::Login { userid },
        )
    }

    #[verifier::opaque]
    pub open spec fn apply_server_cookie(self, cookie: Seq<char>) -> AppView {
        self.use_cookie(cookie, AfterSave::ServerCookie)
    }

    /// The login is stored: the account's data are asked for.
    #[verifier::opaque]
    pub open spec fn login_stored(self, message: Seq<char>) -> AppView {
        self.set_logged_in(true).finish_login(true, message).success(
            "登录成功，按 Esc 关闭"@,
        ).fetch_vip_status().fetch_user_info().maybe_claim_daily_vip()
    }

    /// The settings were saved at `path`, or could not be.
    #[verifier::opaque]
    pub open spec fn config_saved(
        self,
        after: AfterSave<Seq<char>>,
        path: Seq<char>,
        result: Result<(), AppError>,
    ) -> AppView {
        match (after, result) {
            (AfterSave::Nothing, _) => self,
            (AfterSave::Setting(setting), Ok(_)) => self.emit(Effect::ShowSettingChanged(setting)),
            (AfterSave::Setting(_), Err(error)) => self.error("保存设置失败："@ + error.hint@),
            (AfterSave::Device, Ok(_)) => self,
            (AfterSave::Device, Err(error)) => self.error("保存设置失败："@ + error.hint@),
            (AfterSave::Sources, Ok(_)) => self,
            (AfterSave::Sources, Err(error)) => self.error("保存音源配置失败："@ + error.text@),
            (AfterSave::Login { userid }, Ok(_)) => self.login_stored(
                "登录成功（userid="@ + userid + "），凭据已写入 "@ + path,
            ),
            (AfterSave::Login { .. }, Err(error)) => self.finish_login(
                false,
                "保存登录凭据失败："@ + error.text@,
            ),
            (AfterSave::ServerCookie, Ok(_)) => self.login_stored(
                "「"@ + self.source().name() + "」登录成功，凭据已写入 "@ + path,
            ),
            (AfterSave::ServerCookie, Err(error)) => self.finish_login(
                false,
                "保存登录凭据失败："@ + error.text@,
            ),
            (AfterSave::Switch { kind, then_login }, Ok(_)) => self.reconnect(kind, then_login),
            (AfterSave::Switch { kind, then_login }, Err(error)) => self.warn(
                "音源已切换，但保存配置失败："@ + error.text@,
            ).reconnect(kind, then_login),
        }
    }

    #[verifier::opaque]
    pub open spec fn reconnect(self, kind: SourceKind, then_login: bool) -> AppView {
        self.emit(
            Effect::Reconnect {
                kind,
                api_base: self.state.config.api_base,
                cookie: self.state.config.header(),
                then_login,
            },
        )
    }

    /// Puts another service in use. The identity of the one before is stored; the
    /// queue and what is playing stay as they are.
    #[verifier::opaque]
    pub open spec fn switch_source_with(self, kind: SourceKind, then_login: bool) -> AppView {
        if self.source() == kind {
            self
        } else {
            let config = self.state.config.synced().switched(kind);
            self.with_config(config).set_logged_in(config.logged_in()).save_config(
                AfterSave::Switch { kind, then_login },
            )
        }
    }

    #[verifier::opaque]
    pub open spec fn switch_source_to(self, kind: SourceKind) -> AppView {
        self.switch_source_with(kind, false)
    }

    #[verifier::opaque]
    pub open spec fn say_switched(self, kind: SourceKind) -> AppView {
        if !kind.can().catalog {
            self.warn(
                "已切换到「"@ + kind.name()
                    + "」，该音源仅支持搜索与播放（歌单/榜单/云端歌单不可用）"@,
            )
        } else if self.state.config.cookie is None {
            self.warn(
                "已切换到「"@ + kind.name()
                    + "」，但该音源还没登录——按 L 重新扫码（两个平台账号不通用）"@,
            )
        } else {
            self.success("已切换到「"@ + kind.name() + "」音源，当前播放不受影响"@)
        }
    }

    /// The client of the service in use was built anew, or could not be.
    #[verifier::opaque]
    pub open spec fn reconnected(
        self,
        kind: SourceKind,
        then_login: bool,
        result: Result<(), AppError>,
    ) -> AppView {
        let switched = match result {
            Ok(_) => (AppView { client_base: self.state.config.api_base, ..self }).with_account(
                Account { vip_info: None, ..self.state.account },
            ).fetch_vip_status().fetch_user_info().ensure_device_fingerprint()
                .maybe_claim_daily_vip().say_switched(kind),
            Err(error) => self.error(
                "切换到「"@ + kind.name() + "」失败："@ + error.text@ + "（需要 "@ + kind.service()
                    + " 服务运行在 "@ + self.state.config.api_base + "）"@,
            ),
        };
        if then_login {
            switched.login_or_confirm()
        } else {
            switched
        }
    }

    /// The service that is marked on its page.
    pub open spec fn selected_source(self) -> Option<SourceKind> {
        let kinds = self.state.config.sources.in_order();
        let index = match self.state.marks.sources {
            Some(i) => i,
            None => 0,
        };
        if index < kinds.len() {
            Some(kinds[index as int])
        } else {
            None
        }
    }

    /// Goes to the page of the services, or back to the search from there.
    #[verifier::opaque]
    pub open spec fn open_sources_page(self) -> AppView {
        if self.state.screen.tab == Tab::Sources {
            self.switch_tab(Tab::Search)
        } else {
            let shown = self.switch_tab(Tab::Sources);
            shown.with_screen(Screen { focus: Focus::Primary, ..shown.state.screen }).info(
                "音源管理：Enter 启用/禁用 · E 设为默认 · K/J 调优先级"@,
            )
        }
    }

    /// Enables or disables a service. The one in use gives way to the first that
    /// is enabled; the last one stays enabled.
    #[verifier::opaque]
    pub open spec fn toggle_enabled(self, kind: SourceKind) -> AppView {
        let enabled = !self.state.config.sources.of(kind).enabled;
        let config = conf::enabled_as(self.state.config, kind, enabled);
        if !enabled && self.source() == kind {
            match config.sources.first_enabled() {
                Some(fallback) => self.with_config(config.synced().switched(fallback)).warn(
                    "已禁用「"@ + kind.name() + "」，当前音源切到「"@ + fallback.name() + "」"@,
                ).save_config(AfterSave::Sources),
                None => self.with_config(conf::enabled_as(config, kind, true)).error(
                    "至少要保留一个启用的音源"@,
                ),
            }
        } else {
            self.with_config(config).success(
                "「"@ + kind.name() + "」已"@ + (if enabled {
                    "启用"@
                } else {
                    "禁用"@
                }),
            ).save_config(AfterSave::Sources)
        }
    }

    #[verifier::opaque]
    pub open spec fn toggle_source_enabled(self) -> AppView {
        match self.selected_source() {
            Some(kind) => self.toggle_enabled(kind),
            None => self,
        }
    }

    /// Puts the marked service in use, where it is enabled.
    #[verifier::opaque]
    pub open spec fn set_default_source(self) -> AppView {
        match self.selected_source() {
            Some(kind) => if self.source() == kind {
                self.info("「"@ + kind.name() + "」已经是当前音源"@)
            } else if !self.state.config.sources.of(kind).enabled {
                self.warn("「"@ + kind.name() + "」已禁用，先按 Enter 启用"@)
            } else {
                self.switch_source_to(kind)
            },
            None => self,
        }
    }

    /// Moves the marked service one place up or down.
    #[verifier::opaque]
    pub open spec fn shift_source_priority(self, raise: bool) -> AppView {
        let kinds = self.state.config.sources.in_order();
        let from: int = match self.state.marks.sources {
            Some(i) => i as int,
            None => 0,
        };
        let to = if raise {
            from - 1
        } else {
            from + 1
        };
        if from >= kinds.len() {
            self
        } else if to < 0 {
            self.info("已经是第一个"@)
        } else if to >= kinds.len() {
            self.info("已经是最后一个"@)
        } else {
            self.with_config(
                Config {
                    sources: self.state.config.sources.renumbered(
                        kinds.update(from, kinds[to]).update(to, kinds[from]),
                    ),
                    ..self.state.config
                },
            ).success(
                "「"@ + kinds[from].name() + "」优先级已"@ + (if raise {
                    "上调"@
                } else {
                    "下调"@
                }) + "（第 "@ + dec((to + 1) as nat) + " 位）"@,
            ).save_config(AfterSave::Sources)
        }
    }
}

/// A login that says something and has no code.
pub open spec fn fresh_login(
    message: Seq<char>,
    finished: bool,
    succeeded: bool,
) -> LoginState<Seq<char>> {
    LoginState { key: Seq::empty(), qr: Seq::empty(), message, finished, succeeded }
}

fn new_login(message: String, finished: bool, succeeded: bool) -> (r: LoginState<String>)
    ensures
        r@ == fresh_login(message@, finished, succeeded),
{
    LoginState { key: String::new(), qr: String::new(), message, finished, succeeded }
}

impl App {
    /// Stores the identity and asks for the settings to be saved.
    pub fn save_config(&mut self, after: AfterSave<String>)
        ensures
            final(self)@ == old(self)@.save_config(after@),
    {
        proof {
            reveal(AppView::save_config);
        }
        conf::sync_active_source(&mut self.state.config);
        self.emit(Effect::SaveConfig(after));
    }

    pub fn fetch_user_info(&mut self)
        ensures
            final(self)@ == old(self)@.fetch_user_info(),
    {
        proof {
            reveal(AppView::fetch_user_info);
        }
        if !self.state.account.logged_in() {
            self.state.account.set_user_info(None);
            self.state.account.set_user_info_load(LoadState::Idle);
            return;
        }
        let source = conf::active(&self.state.config);
        self.state.account.set_user_info_load(LoadState::Loading);
        self.emit(Effect::UserDetail { source });
    }

    pub fn fetch_vip_status(&mut self)
        ensures
            final(self)@ == old(self)@.fetch_vip_status(),
    {
        proof {
            reveal(AppView::fetch_vip_status);
        }
        let source = conf::active(&self.state.config);
        if !self.state.account.logged_in() || !source.capability().vip {
            self.state.account.set_vip_info(None);
            return;
        }
        self.emit(Effect::VipDetail);
    }

    fn start_vip_sync(&mut self, day: String, manual: bool)
        ensures
            final(self)@ == old(self)@.start_vip_sync(day@, manual),
    {
        proof {
            reveal(AppView::start_vip_sync);
        }
        self.with_client(SourceKind::KugouConcept, Purpose::Vip { day, manual });
    }

    fn today(&self) -> (r: Option<String>)
        ensures
            opt(r) == self@.clock.today,
    {
        crate::source::copy_opt(&self.clock.today)
    }

    /// Claims the day's membership by itself.
    pub fn maybe_claim_daily_vip(&mut self)
        ensures
            final(self)@ == old(self)@.maybe_claim_daily_vip(),
    {
        proof {
            reveal(AppView::maybe_claim_daily_vip);
        }
        let source = conf::active(&self.state.config);
        if !self.state.account.logged_in() || source != SourceKind::KugouConcept {
            return;
        }
        match self.today() {
            Some(day) => {
                if !self.state.account.claimed_on(day.as_str()) {
                    self.start_vip_sync(day, false);
                }
            },
            None => {},
        }
    }

    /// Claims the day's membership because the user asks for it.
    pub fn claim_daily_vip(&mut self)
        ensures
            final(self)@ == old(self)@.claim_daily_vip(),
    {
        proof {
            reveal(AppView::claim_daily_vip);
        }
        if self.state.account.vip_claiming() {
            return;
        }
        if !self.state.account.logged_in() {
            self.warn("领取 VIP 需要先登录（按 L 扫码）".to_owned());
            return;
        }
        if conf::active(&self.state.config) != SourceKind::KugouConcept {
            self.warn("领取 VIP 是概念版专属功能，先按 v 切到「酷狗概念版」".to_owned());
            return;
        }
        match self.today() {
            Some(day) => {
                self.start_vip_sync(day, true);
            },
            None => {
                self.warn("取不到本地日期，无法领取 VIP（可到手机端领取）".to_owned());
            },
        }
    }

    pub fn ensure_device_fingerprint(&mut self)
        ensures
            final(self)@ == old(self)@.ensure_device_fingerprint(),
    {
        proof {
            reveal(AppView::ensure_device_fingerprint);
        }
        let source = conf::active(&self.state.config);
        if source.uses_device_fingerprint() && conf::dfid(&self.state.config).is_none() {
            self.emit(Effect::DeviceFingerprint);
        }
    }

    /// Lets the user choose the service to log in to.
    pub fn open_login_picker(&mut self)
        ensures
            final(self)@ == old(self)@.open_login_picker(),
    {
        proof {
            reveal(AppView::open_login_picker);
        }
        let kinds = list_login_candidates();
        if kinds.len() == 0 {
            self.warn("当前没有任何音源支持登录".to_owned());
        } else if kinds.len() == 1 {
            self.begin_login_for(kinds[0]);
        } else {
            let place: usize = find_kind(&kinds, conf::active(&self.state.config));
            self.state.panels.set_login_picker(Some(place));
        }
    }

    pub fn confirm_login_source(&mut self)
        ensures
            final(self)@ == old(self)@.confirm_login_source(),
    {
        proof {
            reveal(AppView::confirm_login_source);
        }
        match self.state.panels.login_picker() {
            Some(i) => {
                self.state.panels.set_login_picker(None);
                let kinds = list_login_candidates();
                if i < kinds.len() {
                    self.begin_login_for(kinds[i]);
                }
            },
            None => {},
        }
    }

    pub fn begin_login_for(&mut self, kind: SourceKind)
        ensures
            final(self)@ == old(self)@.begin_login_for(kind),
    {
        proof {
            reveal(AppView::begin_login_for);
        }
        if kind != conf::active(&self.state.config) {
            self.switch_source_with(kind, true);
        } else {
            self.login_or_confirm();
        }
    }

    fn login_or_confirm(&mut self)
        ensures
            final(self)@ == old(self)@.login_or_confirm(),
    {
        proof {
            reveal(AppView::login_or_confirm);
        }
        if self.state.account.logged_in() {
            self.state.panels.set_pending_confirm(Some(ConfirmAction::Relogin));
        } else {
            self.begin_login();
        }
    }

    /// Forgets the login, but not the fingerprint, and logs in anew.
    pub fn relogin(&mut self)
        ensures
            final(self)@ == old(self)@.relogin(),
    {
        proof {
            reveal(AppView::relogin);
        }
        conf::set_cookie(&mut self.state.config, None);
        self.state.account.set_logged_in(false);
        let header = conf::header(&self.state.config);
        self.emit(Effect::SetCookie(header));
        self.begin_login();
    }

    pub fn begin_login(&mut self)
        ensures
            final(self)@ == old(self)@.begin_login(),
    {
        proof {
            reveal(AppView::begin_login);
        }
        if self.state.panels.is_logging_in() {
            self.info("登录已在进行中，扫码或按 Esc 取消".to_owned());
            return;
        }
        let now_ms: u64 = self.clock.now_ms;
        match seconds_to_wait(now_ms, self.state.account.last_qr_key_at()) {
            Some(left) => {
                let number = dec_text(left);
                self.warn(
                    cat3(
                        "取二维码太频繁了，请 ",
                        number.as_str(),
                        " 秒后再按 L（频繁申请会被服务端限流）",
                    ),
                );
            },
            None => {
                let source = conf::active(&self.state.config);
                self.state.account.set_last_qr_key_at(Some(now_ms));
                self.state.panels.set_login(
                    new_login("正在获取二维码…".to_owned(), false, false),
                );
                self.emit(Effect::LoginQr { source });
            },
        }
    }

    pub fn poll_login(&mut self)
        ensures
            final(self)@ == old(self)@.poll_login(),
    {
        proof {
            reveal(AppView::poll_login);
        }
        if !self.state.panels.is_logging_in() {
            return;
        }
        let key = self.state.panels.login_key();
        if key.as_str().is_empty() {
            return;
        }
        let source = conf::active(&self.state.config);
        self.emit(Effect::LoginCheck { source, key });
    }

    pub fn finish_login(&mut self, succeeded: bool, message: String)
        ensures
            final(self)@ == old(self)@.finish_login(succeeded, message@),
    {
        proof {
            reveal(AppView::finish_login);
        }
        self.state.panels.set_login(new_login(message, true, succeeded));
    }

    fn set_logged_in(&mut self, logged_in: bool)
        ensures
            final(self)@ == old(self)@.set_logged_in(logged_in),
    {
        proof {
            reveal(AppView::set_logged_in);
        }
        self.state.account.set_logged_in(logged_in);
    }

    pub fn finish_server_side_login(&mut self)
        ensures
            final(self)@ == old(self)@.finish_server_side_login(),
    {
        proof {
            reveal(AppView::finish_server_side_login);
        }
        let source = conf::active(&self.state.config);
        let message = cat5(
            "「",
            source.label(),
            "」已在服务端完成登录（凭据由 ",
            source.service_name(),
            " 保管，未写入本地配置）",
        );
        self.set_logged_in(true);
        self.finish_login(true, message);
    }

    fn use_cookie(&mut self, cookie: String, after: AfterSave<String>)
        ensures
            final(self)@ == old(self)@.use_cookie(cookie@, after@),
    {
        proof {
            reveal(AppView::use_cookie);
        }
        conf::set_cookie(&mut self.state.config, Some(cookie));
        let header = conf::header(&self.state.config);
        self.emit(Effect::SetCookie(header));
        self.save_config(after);
    }

    /// Takes a login with a token.
    pub fn apply_login(&mut self, token: &str, userid: String)
        ensures
            final(self)@ == old(self)@.apply_login(token@, userid@),
    {
        proof {
            reveal(AppView::apply_login);
        }
        let mut cookie = cat3("token=", token, "; userid=");
        cookie.append(userid.as_str());
        self.use_cookie(cookie, AfterSave::Login { userid });
    }

    /// Takes a login with a cookie of the service.
    pub fn apply_server_cookie(&mut self, cookie: String)
        ensures
            final(self)@ == old(self)@.apply_server_cookie(cookie@),
    {
        proof {
            reveal(AppView::apply_server_cookie);
        }
        self.use_cookie(cookie, AfterSave::ServerCookie);
    }

    fn login_stored(&mut self, message: String)
        ensures
            final(self)@ == old(self)@.login_stored(message@),
    {
        proof {
            reveal(AppView::login_stored);
        }
        self.set_logged_in(true);
        self.finish_login(true, message);
        self.success("登录成功，按 Esc 关闭".to_owned());
        self.fetch_vip_status();
        self.fetch_user_info();
        self.maybe_claim_daily_vip();
    }

    /// Takes that the settings were saved at `path`, or could not be.
    pub fn config_saved(
        &mut self,
        after: AfterSave<String>,
        path: &str,
        result: Result<(), AppError>,
    )
        ensures
            final(self)@ == old(self)@.config_saved(after@, path@, result),
    {
        proof {
            reveal(AppView::config_saved);
        }
        match after {
            AfterSave::Nothing => {},
            AfterSave::Setting(setting) => match result {
                Ok(_) => {
                    self.emit(Effect::ShowSettingChanged(setting));
                },
                Err(error) => {
                    self.error(cat2("保存设置失败：", error.hint.as_str()));
                },
            },
            AfterSave::Device => match result {
                Ok(_) => {},
                Err(error) => {
                    self.error(cat2("保存设置失败：", error.hint.as_str()));
                },
            },
            AfterSave::Sources => match result {
                Ok(_) => {},
                Err(error) => {
                    self.error(cat2("保存音源配置失败：", error.text.as_str()));
                },
            },
            AfterSave::Login { userid } => match result {
                Ok(_) => {
                    let mut message = cat3("登录成功（userid=", userid.as_str(), "），凭据已写入 ");
                    message.append(path);
                    self.login_stored(message);
                },
                Err(error) => {
                    self.finish_login(false, cat2("保存登录凭据失败：", error.text.as_str()));
                },
            },
            AfterSave::ServerCookie => match result {
                Ok(_) => {
                    let source = conf::active(&self.state.config);
                    let mut message = cat3("「", source.label(), "」登录成功，凭据已写入 ");
                    message.append(path);
                    self.login_stored(message);
                },
                Err(error) => {
                    self.finish_login(false, cat2("保存登录凭据失败：", error.text.as_str()));
                },
            },
            AfterSave::Switch { kind, then_login } => match result {
                Ok(_) => {
                    self.reconnect(kind, then_login);
                },
                Err(error) => {
                    self.warn(cat2("音源已切换，但保存配置失败：", error.text.as_str()));
                    self.reconnect(kind, then_login);
                },
            },
        }
    }

    fn reconnect(&mut self, kind: SourceKind, then_login: bool)
        ensures
            final(self)@ == old(self)@.reconnect(kind, then_login),
    {
        proof {
            reveal(AppView::reconnect);
        }
        let api_base = conf::api_base(&self.state.config);
        let cookie = conf::header(&self.state.config);
        self.emit(Effect::Reconnect { kind, api_base, cookie, then_login });
    }

    fn switch_source_with(&mut self, kind: SourceKind, then_login: bool)
        ensures
            final(self)@ == old(self)@.switch_source_with(kind, then_login),
    {
        proof {
            reveal(AppView::switch_source_with);
        }
        if conf::active(&self.state.config) == kind {
            return;
        }
        conf::sync_active_source(&mut self.state.config);
        conf::switch_source(&mut self.state.config, kind);
        let logged_in = conf::is_logged_in(&self.state.config);
        self.set_logged_in(logged_in);
        self.save_config(AfterSave::Switch { kind, then_login });
    }

    /// Puts another service in use.
    pub fn switch_source_to(&mut self, kind: SourceKind)
        ensures
            final(self)@ == old(self)@.switch_source_to(kind),
    {
        proof {
            reveal(AppView::switch_source_to);
        }
        self.switch_source_with(kind, false);
    }

    fn say_switched(&mut self, kind: SourceKind)
        ensures
            final(self)@ == old(self)@.say_switched(kind),
    {
        proof {
            reveal(AppView::say_switched);
        }
        if !kind.capability().catalog {
            self.warn(
                cat3(
                    "已切换到「",
                    kind.label(),
                    "」，该音源仅支持搜索与播放（歌单/榜单/云端歌单不可用）",
                ),
            );
        } else if conf::cookie(&self.state.config).is_none() {
            self.warn(
                cat3(
                    "已切换到「",
                    kind.label(),
                    "」，但该音源还没登录——按 L 重新扫码（两个平台账号不通用）",
                ),
            );
        } else {
            self.success(cat3("已切换到「", kind.label(), "」音源，当前播放不受影响"));
        }
    }

    /// Takes that the client of the service in use was built anew, or could not
    /// be.
    pub fn reconnected(
        &mut self,
        kind: SourceKind,
        then_login: bool,
        result: Result<(), AppError>,
    )
        ensures
            final(self)@ == old(self)@.reconnected(kind, then_login, result),
    {
        proof {
            reveal(AppView::reconnected);
        }
        match result {
            Ok(_) => {
                self.client_base = conf::api_base(&self.state.config);
                self.state.account.set_vip_info(None);
                self.fetch_vip_status();
                self.fetch_user_info();
                self.ensure_device_fingerprint();
                self.maybe_claim_daily_vip();
                self.say_switched(kind);
            },
            Err(error) => {
                let api_base = conf::api_base(&self.state.config);
                let mut text = cat3("切换到「", kind.label(), "」失败：");
                text.append(error.text.as_str());
                text.append("（需要 ");
                text.append(kind.service_name());
                text.append(" 服务运行在 ");
                text.append(api_base.as_str());
                text.append("）");
                self.error(text);
            },
        }
        if then_login {
            self.login_or_confirm();
        }
    }

    /// The service that is marked on its page.
    pub fn selected_source(&self) -> (r: Option<SourceKind>)
        ensures
            r == self@.selected_source(),
    {
        let kinds = conf::ordered(&self.state.config);
        let index: usize = self.state.marks.sources.unwrap_or(0);
        if index < kinds.len() {
            Some(kinds[index])
        } else {
            None
        }
    }

    pub fn open_sources_page(&mut self)
        ensures
            final(self)@ == old(self)@.open_sources_page(),
    {
        proof {
            reveal(AppView::open_sources_page);
        }
        if self.state.screen.tab() == Tab::Sources {
            self.switch_tab(Tab::Search);
            return;
        }
        self.switch_tab(Tab::Sources);
        self.state.screen.set_focus(Focus::Primary);
        self.info("音源管理：Enter 启用/禁用 · E 设为默认 · K/J 调优先级".to_owned());
    }

    fn toggle_enabled(&mut self, kind: SourceKind)
        ensures
            final(self)@ == old(self)@.toggle_enabled(kind),
    {
        proof {
            reveal(AppView::toggle_enabled);
        }
        let enabled = !conf::is_enabled(&self.state.config, kind);
        let in_use = conf::active(&self.state.config) == kind;
        conf::set_enabled(&mut self.state.config, kind, enabled);
        if !enabled && in_use {
            match conf::first_enabled(&self.state.config) {
                Some(fallback) => {
                    conf::sync_active_source(&mut self.state.config);
                    conf::switch_source(&mut self.state.config, fallback);
                    self.warn(
                        cat5(
                            "已禁用「",
                            kind.label(),
                            "」，当前音源切到「",
                            fallback.label(),
                            "」",
                        ),
                    );
                    self.save_config(AfterSave::Sources);
                },
                None => {
                    conf::set_enabled(&mut self.state.config, kind, true);
                    self.error("至少要保留一个启用的音源".to_owned());
                },
            }
        } else {
            let mut text = cat3("「", kind.label(), "」已");
            text.append(
                if enabled {
                    "启用"
                } else {
                    "禁用"
                },
            );
            self.success(text);
            self.save_config(AfterSave::Sources);
        }
    }

    /// Enables or disables the marked service.
    pub fn toggle_source_enabled(&mut self)
        ensures
            final(self)@ == old(self)@.toggle_source_enabled(),
    {
        proof {
            reveal(AppView::toggle_source_enabled);
        }
        match self.selected_source() {
            Some(kind) => {
                self.toggle_enabled(kind);
            },
            None => {},
        }
    }

    /// Puts the marked service in use.
    pub fn set_default_source(&mut self)
        ensures
            final(self)@ == old(self)@.set_default_source(),
    {
        proof {
            reveal(AppView::set_default_source);
        }
        match self.selected_source() {
            Some(kind) => {
                if conf::active(&self.state.config) == kind {
                    self.info(cat3("「", kind.label(), "」已经是当前音源"));
                } else if !conf::is_enabled(&self.state.config, kind) {
                    self.warn(cat3("「", kind.label(), "」已禁用，先按 Enter 启用"));
                } else {
                    self.switch_source_to(kind);
                }
            },
            None => {},
        }
    }

    /// Moves the marked service one place up or down.
    pub fn shift_source_priority(&mut self, raise: bool)
        ensures
            final(self)@ == old(self)@.shift_source_priority(raise),
    {
        proof {
            reveal(AppView::shift_source_priority);
        }
        let mut kinds = conf::ordered(&self.state.config);
        let from: usize = self.state.marks.sources.unwrap_or(0);
        if from >= kinds.len() {
            return;
        }
        if raise && from == 0 {
            self.info("已经是第一个".to_owned());
            return;
        }
        if !raise && from + 1 >= kinds.len() {
            self.info("已经是最后一个".to_owned());
            return;
        }
        let to: usize = if raise {
            from - 1
        } else {
            from + 1
        };
        let kind = kinds[from];
        let other = kinds[to];
        kinds.set(from, other);
        kinds.set(to, kind);
        conf::renumber(&mut self.state.config, &kinds);
        let number = dec_text(to as u64 + 1);
        let mut text = cat3("「", kind.label(), "」优先级已");
        text.append(
            if raise {
                "上调"
            } else {
                "下调"
            },
        );
        text.append("（第 ");
        text.append(number.as_str());
        text.append(" 位）");
        self.success(text);
        self.save_config(AfterSave::Sources);
    }
}

} // verus!
