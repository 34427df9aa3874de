//! The navigate event: whether and how a navigation is intercepted.
use vstd::prelude::*;
use crate::dom_misc::InterceptionState;
use crate::navigation::DomError;

verus! {

/// The kind of navigation a navigate event announces.
#[derive(Clone, Copy, Debug, PartialEq, Eq, Structural)]
pub enum NavigationType {
    Push,
    Replace,
    Reload,
    Traverse,
}

#[derive(Clone, Copy, Debug, PartialEq, Eq, Structural)]
pub enum NavigationFocusReset {
    AfterTransition,
    Manual,
}

#[derive(Clone, Copy, Debug, PartialEq, Eq, Structural)]
pub enum NavigationScrollBehavior {
    AfterTransition,
    Manual,
}

/// The options of `intercept`; a handler is named by an id.
#[derive(Clone, Copy, Debug, PartialEq, Eq, Structural)]
pub struct NavigationInterceptOptions {
    pub handler: Option<u64>,
    pub focus_reset: Option<NavigationFocusReset>,
    pub scroll: Option<NavigationScrollBehavior>,
}

/// What the event's document and dispatch look like when a method is called.
#[derive(Clone, Copy, Debug, PartialEq, Eq, Structural)]
pub struct EventContext {
    pub document_fully_active: bool,
    pub is_trusted: bool,
    pub canceled: bool,
    pub dispatching: bool,
}

/// How the document is to scroll once the navigation committed.
#[derive(Clone, Copy, Debug, PartialEq, Eq, Structural)]
pub enum ScrollAction {
    /// Clear the target element, then scroll to the fragment (reloads and traversals).
    ResetTargetAndScroll,
    /// Scroll to the fragment.
    ScrollToFragment,
}

/// The error of the checks that `intercept` and `scroll` share, if any.
pub open spec fn shared_check_error(ctx: EventContext) -> Option<DomError> {
    if !ctx.document_fully_active {
        Some(DomError::InvalidState)
    } else if !ctx.is_trusted {
        Some(DomError::Security)
    } else if ctx.canceled {
        Some(DomError::InvalidState)
    } else {
        None
    }
}

pub struct NavigateEvent {
    pub navigation_type: NavigationType,
    pub interception_state: InterceptionState,
    pub navigation_handler_list: Vec<u64>,
    pub focus_reset: Option<NavigationFocusReset>,
    pub scroll_behavior: Option<NavigationScrollBehavior>,
    pub download_request: Option<String>,
    pub can_intercept: bool,
    pub user_initiated: bool,
    pub has_ua_visual_transition: bool,
    pub hash_change: bool,
}

impl NavigateEvent {
    pub fn new(
        navigation_type: NavigationType,
        download_request: Option<String>,
        can_intercept: bool,
        user_initiated: bool,
        has_ua_visual_transition: bool,
        hash_change: bool,
    ) -> (r: NavigateEvent)
        ensures
            r.navigation_type == navigation_type,
            r.interception_state == InterceptionState::NotIntercepted,
            r.navigation_handler_list@.len() == 0,
            r.focus_reset is None,
            r.scroll_behavior is None,
            r.download_request == download_request,
            r.can_intercept == can_intercept,
            r.user_initiated == user_initiated,
            r.has_ua_visual_transition == has_ua_visual_transition,
            r.hash_change == hash_change,
    {
        NavigateEvent {
            navigation_type,
            interception_state: InterceptionState::NotIntercepted,
            navigation_handler_list: Vec::new(),
            focus_reset: None,
            scroll_behavior: None,
            download_request,
            can_intercept,
            user_initiated,
            has_ua_visual_transition,
            hash_change,
        }
    }

    /// The checks that `intercept` and `scroll` share: the document is fully active, the event
    /// is trusted and not canceled.
    pub fn perform_shared_checks(&self, ctx: EventContext) -> (r: Result<(), DomError>)
        ensures
            match shared_check_error(ctx) {
                Some(e) => r == Err::<(), DomError>(e),
                None => r is Ok,
            },
    {
        if !ctx.document_fully_active {
            return Err(DomError::InvalidState);
        }
        if !ctx.is_trusted {
            return Err(DomError::Security);
        }
        if ctx.canceled {
            return Err(DomError::InvalidState);
        }
        Ok(())
    }

    /// Intercepts the navigation: after the shared checks, fails with a security error where
    /// the event cannot intercept and with an invalid-state error where it is not being
    /// dispatched; otherwise marks it intercepted and records the options.
    pub fn intercept(&mut self, ctx: EventContext, options: NavigationInterceptOptions) -> (r: Result<
        (),
        DomError,
    >)
        ensures
            shared_check_error(ctx) matches Some(e) ==> r == Err::<(), DomError>(e) && *final(self) == *old(self),
            shared_check_error(ctx) is None && !old(self).can_intercept ==> r == Err::<(), DomError>(DomError::Security)
                && *final(self) == *old(self),
            shared_check_error(ctx) is None && old(self).can_intercept && !ctx.dispatching ==> r
                == Err::<(), DomError>(DomError::InvalidState) && *final(self) == *old(self),
            shared_check_error(ctx) is None && old(self).can_intercept && ctx.dispatching ==> {
                &&& r is Ok
                &&& final(self).interception_state == InterceptionState::Intercepted
                &&& final(self).navigation_handler_list@ == (match options.handler {
                    Some(h) => old(self).navigation_handler_list@.push(h),
                    None => old(self).navigation_handler_list@,
                })
                &&& final(self).focus_reset == (if options.focus_reset is Some {
                    options.focus_reset
                } else {
                    old(self).focus_reset
                })
                &&& final(self).scroll_behavior == (if options.scroll is Some {
                    options.scroll
                } else {
                    old(self).scroll_behavior
                })
                &&& final(self).navigation_type == old(self).navigation_type
            },
    {
        match self.perform_shared_checks(ctx) {
            Err(e) => return Err(e),
            Ok(()) => {},
        }
        if !self.can_intercept {
            return Err(DomError::Security);
        }
        if !ctx.dispatching {
            return Err(DomError::InvalidState);
        }
        self.interception_state = InterceptionState::Intercepted;
        match options.handler {
            Some(h) => self.navigation_handler_list.push(h),
            None => {},
        }
        if options.focus_reset.is_some() {
            self.focus_reset = options.focus_reset;
        }
        if options.scroll.is_some() {
            self.scroll_behavior = options.scroll;
        }
        Ok(())
    }

    /// Marks the event scrolled and says how to scroll: reloads and traversals clear the
    /// target element first.
    fn process_scroll_behavior(&mut self) -> (a: ScrollAction)
        ensures
            final(self).interception_state == InterceptionState::Scrolled,
            a == (if old(self).navigation_type == NavigationType::Reload || old(self).navigation_type
                == NavigationType::Traverse {
                ScrollAction::ResetTargetAndScroll
            } else {
                ScrollAction::ScrollToFragment
            }),
            final(self).navigation_type == old(self).navigation_type,
            final(self).navigation_handler_list == old(self).navigation_handler_list,
    {
        self.interception_state = InterceptionState::Scrolled;
        match self.navigation_type {
            NavigationType::Reload | NavigationType::Traverse => ScrollAction::ResetTargetAndScroll,
            _ => ScrollAction::ScrollToFragment,
        }
    }

    /// Scrolls now: after the shared checks, fails with an invalid-state error unless the
    /// navigation has committed; otherwise returns how to scroll.
    pub fn scroll(&mut self, ctx: EventContext) -> (r: Result<ScrollAction, DomError>)
        ensures
            shared_check_error(ctx) matches Some(e) ==> r == Err::<ScrollAction, DomError>(e) && *final(self) == *old(self),
            shared_check_error(ctx) is None && old(self).interception_state
                != InterceptionState::Committed ==> r == Err::<ScrollAction, DomError>(DomError::InvalidState)
                && *final(self) == *old(self),
            shared_check_error(ctx) is None && old(self).interception_state
                == InterceptionState::Committed ==> {
                &&& final(self).interception_state == InterceptionState::Scrolled
                &&& r == Ok::<ScrollAction, DomError>(
                    if old(self).navigation_type == NavigationType::Reload || old(self).navigation_type
                        == NavigationType::Traverse {
                        ScrollAction::ResetTargetAndScroll
                    } else {
                        ScrollAction::ScrollToFragment
                    },
                )
            },
    {
        match self.perform_shared_checks(ctx) {
            Err(e) => return Err(e),
            Ok(()) => {},
        }
        if self.interception_state != InterceptionState::Committed {
            return Err(DomError::InvalidState);
        }
        Ok(self.process_scroll_behavior())
    }
}

} // verus!
