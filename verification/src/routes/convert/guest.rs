//! What a guest may convert.

use vstd::prelude::*;
use crate::db::stats::GuestConfig;
use crate::error::{AppError, AppErrorView};
use crate::models::auth::AuthInfo;
use crate::text::{decimal, glue3, i64_to_string, str_eq};

verus! {

/// The text with which a guest is refused where guests are not served.
pub open spec fn guests_disabled_text() -> Seq<char> {
    "Modalità guest disabilitata. Richiedi una API Key."@
}

/// The names of a list, separated by a comma and a blank.
pub open spec fn joined_names(list: Seq<Seq<char>>) -> Seq<char>
    decreases list.len(),
{
    if list.len() == 0 {
        Seq::empty()
    } else if list.len() == 1 {
        list[0]
    } else {
        joined_names(list.drop_last()) + ", "@ + list.last()
    }
}

/// The text with which a guest is refused a category of conversion.
pub open spec fn type_refused_text(conversion_type: Seq<char>, allowed: Seq<Seq<char>>) -> Seq<
    char,
> {
    "Tipo conversione '"@ + conversion_type + "' non permesso per guest. Tipi permessi: "@
        + joined_names(allowed)
}

/// The text with which a guest is refused who has used up the day.
pub open spec fn daily_limit_text(limit: i64) -> Seq<char> {
    "Limite giornaliero di "@ + decimal(limit as int) + " conversioni raggiunto per guest"@
}

/// What checking the limits of a guest comes to: guests must be served, the
/// category must be one of those allowed to guests, and a guest whose address
/// is known must not have used up the day.
pub open spec fn guest_check(
    enabled: bool,
    allowed: Seq<Seq<char>>,
    daily_limit: i64,
    address_known: bool,
    conversion_type: Seq<char>,
    daily_usage: i64,
) -> Result<(), AppErrorView> {
    if !enabled {
        Err(AppErrorView::Forbidden(guests_disabled_text()))
    } else if !allowed.contains(conversion_type) {
        Err(AppErrorView::Forbidden(type_refused_text(conversion_type, allowed)))
    } else if address_known && daily_usage >= daily_limit {
        Err(AppErrorView::DailyLimitExceeded(daily_limit_text(daily_limit)))
    } else {
        Ok(())
    }
}

fn join_names(list: &Vec<String>) -> (r: String)
    ensures
        r@ == joined_names(list.deep_view()),
{
    let mut out = String::new();
    let mut i: usize = 0;
    while i < list.len()
        invariant
            i <= list.len(),
            out@ == joined_names(list.deep_view().take(i as int)),
        decreases list.len() - i,
    {
        proof {
            let next = list.deep_view().take(i + 1);
            assert(next.drop_last() =~= list.deep_view().take(i as int));
            assert(next.last() == list[i as int]@);
            if i == 0 {
                assert(out@ =~= Seq::<char>::empty());
            }
        }
        if i > 0 {
            out.append(", ");
        }
        out.append(list[i].as_str());
        proof {
            if i == 0 {
                assert(out@ =~= list[0]@);
            }
        }
        i += 1;
    }
    assert(list.deep_view().take(i as int) =~= list.deep_view());
    out
}

fn allows(list: &Vec<String>, name: &str) -> (r: bool)
    ensures
        r == list.deep_view().contains(name@),
{
    let mut i: usize = 0;
    while i < list.len()
        invariant
            i <= list.len(),
            forall|j: int| 0 <= j < i ==> list.deep_view()[j] != name@,
        decreases list.len() - i,
    {
        if str_eq(list[i].as_str(), name) {
            assert(list.deep_view()[i as int] == name@);
            return true;
        }
        i += 1;
    }
    false
}

/// Checks that a guest may convert a file of the category. `daily_usage` is
/// how many conversions the address of the guest has made today; it counts
/// only where the address is known.
pub fn check_guest_limits(
    config: &GuestConfig,
    auth: &AuthInfo,
    conversion_type: &str,
    daily_usage: i64,
) -> (r: Result<(), AppError>)
    ensures
        match r {
            Ok(_) => guest_check(
                config.enabled,
                config.allowed_types.deep_view(),
                config.daily_limit,
                auth.client_ip is Some,
                conversion_type@,
                daily_usage,
            ) is Ok,
            Err(e) => guest_check(
                config.enabled,
                config.allowed_types.deep_view(),
                config.daily_limit,
                auth.client_ip is Some,
                conversion_type@,
                daily_usage,
            ) == Err::<(), AppErrorView>(e@),
        },
{
    if !config.enabled {
        return Err(
            AppError::Forbidden("Modalità guest disabilitata. Richiedi una API Key.".to_string()),
        );
    }
    if !allows(&config.allowed_types, conversion_type) {
        let mut text = glue3(
            "Tipo conversione '",
            conversion_type,
            "' non permesso per guest. Tipi permessi: ",
        );
        text.append(join_names(&config.allowed_types).as_str());
        return Err(AppError::Forbidden(text));
    }
    if auth.client_ip.is_some() && daily_usage >= config.daily_limit {
        return Err(
            AppError::DailyLimitExceeded(
                glue3(
                    "Limite giornaliero di ",
                    i64_to_string(config.daily_limit).as_str(),
                    " conversioni raggiunto per guest",
                ),
            ),
        );
    }
    Ok(())
}

/// Checks that a file is no larger than guests may send.
pub fn check_guest_file_size(config: &GuestConfig, size_bytes: i64) -> (r: Result<(), AppError>)
    ensures
        size_bytes <= config.max_file_size_mb * 1048576 ==> r is Ok,
        size_bytes > config.max_file_size_mb * 1048576 ==> (r matches Err(e) && e@
            == AppErrorView::FileTooLarge(config.max_file_size_mb as u64)),
{
    let max_bytes: i128 = (config.max_file_size_mb as i128) * 1048576;
    if (size_bytes as i128) > max_bytes {
        return Err(
            AppError::FileTooLarge(#[verifier::truncate] (config.max_file_size_mb as u64)),
        );
    }
    Ok(())
}

} // verus!
