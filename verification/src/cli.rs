//! What the command line decides and shows: the region to use, the change
//! of region, and the texts of the commands. Reading arguments and files and
//! printing are the caller's.

use vstd::prelude::*;
use vstd::string::*;
use crate::config::AppConfig;
use crate::date::{CalendarDate, TimeOfDay};
use crate::error::AppError;
use crate::models::price::{DailyPriceSchedule, period_at, rule_line, tier_label};
use crate::models::price_type::{UsageType, usage_label};
use crate::models::region::{Region, region_display, region_format_error, single_separator};
use crate::text::{digits, lowercase, padded, price4_text, push_digits, push_padded, push_price4};
use crate::models::price::push_rule_line;

verus! {

/// A command of the tool.
#[derive(Debug, Clone)]
pub enum Commands {
    /// The price in force now.
    Current,
    /// Today's schedule.
    Today,
    /// The schedule of a date.
    Date { date: CalendarDate },
    /// Advice for using electricity now.
    Recommend,
    /// Showing or changing the configuration.
    Config { action: ConfigAction },
}

/// A configuration command.
#[derive(Debug, Clone)]
pub enum ConfigAction {
    /// Show the configuration.
    Show,
    /// Set the default region, given as `province/city`.
    SetRegion { region: String },
}

/// The keys of the region to use: those given, each falling back to the
/// configured one.
pub open spec fn chosen_keys(province: Option<&str>, city: Option<&str>, config: AppConfig) -> (Seq<char>, Seq<char>) {
    (
        match province {
            Some(p) => p@,
            None => config.region.province@,
        },
        match city {
            Some(c) => c@,
            None => config.region.city@,
        },
    )
}

/// The region to use: the province and city given, each falling back to
/// the configured one, lowercased.
pub fn resolve_region(province: Option<&str>, city: Option<&str>, config: &AppConfig) -> (r: Region)
    ensures
        r.province@ == lowercase(chosen_keys(province, city, *config).0),
        r.city@ == lowercase(chosen_keys(province, city, *config).1),
{
    match (province, city) {
        (Some(p), Some(c)) => Region::new(p, c),
        (Some(p), None) => Region::new(p, config.region.city.as_str()),
        (None, Some(c)) => Region::new(config.region.province.as_str(), c),
        (None, None) => Region::new(config.region.province.as_str(), config.region.city.as_str()),
    }
}

/// The configuration with its default region set from a `province/city`
/// text; a configuration error where the text is not of that form.
pub fn apply_region(config: AppConfig, region_text: &str) -> (r: Result<(AppConfig, Region), AppError>)
    ensures
        r is Ok <==> exists|k: int| single_separator(region_text@, k),
        r matches Ok((c, reg)) ==> {
            &&& exists|k: int|
                single_separator(region_text@, k) && reg.province@ == lowercase(region_text@.subrange(0, k))
                    && reg.city@ == lowercase(region_text@.subrange(k + 1, region_text@.len() as int))
            &&& c.region.province@ == reg.province@
            &&& c.region.city@ == reg.city@
            &&& c.api == config.api
            &&& c.cache == config.cache
            &&& c.pricing == config.pricing
        },
        r matches Err(e) ==> (e matches AppError::Config(m) && m@ == region_format_error(region_text@)),
{
    match Region::parse(region_text) {
        Ok(region) => {
            let mut c = config;
            c.region.province = region.province.clone();
            c.region.city = region.city.clone();
            Ok((c, region))
        },
        Err(m) => Err(AppError::Config(m)),
    }
}

/// The text of the `current` command.
pub open spec fn current_text(usage: UsageType, region: Region, schedule: DailyPriceSchedule, now: TimeOfDay) -> Seq<char> {
    usage_label(usage) + " "@ + region_display(region.province@, region.city@) + " 当前电价:\n"@
        + rule_line() + match period_at(schedule.periods@, now.hour as int) {
        Some(p) => "  当前时段: "@ + tier_label(p.tier) + " ("@ + padded(p.start_hour as nat, 2) + ":00-"@
            + padded(p.end_hour as nat, 2) + ":00)\n"@ + "  电价: ¥"@ + price4_text(p.price as nat)
            + "/kWh\n"@,
        None => seq![],
    } + rule_line()
}

/// The text of the `current` command: the period in force and its price.
pub fn current_report(usage: UsageType, region: &Region, schedule: &DailyPriceSchedule, now: TimeOfDay) -> (r: String)
    ensures
        r@ == current_text(usage, *region, *schedule, now),
{
    let mut out = usage.label().to_owned();
    out.append(" ");
    let name = region.display_name();
    out.append(name.as_str());
    out.append(" 当前电价:\n");
    push_rule_line(&mut out);
    let ghost mid = out@;
    match schedule.current_price(now) {
        Some(p) => {
            out.append("  当前时段: ");
            out.append(p.tier.label());
            out.append(" (");
            push_padded(&mut out, p.start_hour as u64, 2);
            out.append(":00-");
            push_padded(&mut out, p.end_hour as u64, 2);
            out.append(":00)\n");
            out.append("  电价: ¥");
            push_price4(&mut out, p.price);
            out.append("/kWh\n");
        },
        None => {},
    }
    push_rule_line(&mut out);
    assert(out@ =~= current_text(usage, *region, *schedule, now));
    out
}

/// The text of `config show`.
pub open spec fn config_text(region: Region, usage: UsageType, config: AppConfig) -> Seq<char> {
    "当前配置:\n"@ + rule_line() + "  地区: "@ + region_display(region.province@, region.city@) + "\n"@
        + "  用电类型: "@ + usage_label(usage) + "\n"@ + "  API: "@ + config.api.base_url@ + "\n"@
        + "  缓存TTL: "@ + digits(config.cache.ttl as nat) + "秒\n"@ + "  高峰电价: ¥"@ + price4_text(
        config.pricing.default.peak_price as nat,
    ) + "/kWh\n"@ + "  低谷电价: ¥"@ + price4_text(config.pricing.default.valley_price as nat)
        + "/kWh\n"@ + rule_line()
}

/// The text of `config show`: region, usage type, API, cache time and the
/// local peak and valley prices.
pub fn config_report(region: &Region, usage: UsageType, config: &AppConfig) -> (r: String)
    ensures
        r@ == config_text(*region, usage, *config),
{
    let mut out = "当前配置:\n".to_owned();
    push_rule_line(&mut out);
    out.append("  地区: ");
    let name = region.display_name();
    out.append(name.as_str());
    out.append("\n");
    out.append("  用电类型: ");
    out.append(usage.label());
    out.append("\n");
    out.append("  API: ");
    out.append(config.api.base_url.as_str());
    out.append("\n");
    out.append("  缓存TTL: ");
    push_digits(&mut out, config.cache.ttl);
    out.append("秒\n");
    out.append("  高峰电价: ¥");
    push_price4(&mut out, config.pricing.default.peak_price);
    out.append("/kWh\n");
    out.append("  低谷电价: ¥");
    push_price4(&mut out, config.pricing.default.valley_price);
    out.append("/kWh\n");
    push_rule_line(&mut out);
    assert(out@ =~= config_text(*region, usage, *config));
    out
}

/// The text of the `recommend` command: a title and the advice between two
/// rules.
pub fn recommend_report(advice: &str) -> (r: String)
    ensures
        r@ == "用电建议:\n"@ + rule_line() + advice@ + "\n"@ + rule_line(),
{
    let mut out = "用电建议:\n".to_owned();
    push_rule_line(&mut out);
    out.append(advice);
    out.append("\n");
    push_rule_line(&mut out);
    out
}

/// The confirmation of a region change.
pub fn region_set_report(region: &Region) -> (r: String)
    ensures
        r@ == "地区已设置为: "@ + region_display(region.province@, region.city@),
{
    let mut out = "地区已设置为: ".to_owned();
    let name = region.display_name();
    out.append(name.as_str());
    out
}

}
