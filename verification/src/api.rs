//! The endpoint catalog: one logical remote operation per variant, each with
//! its wire name; `Custom` covers any endpoint given by name.

use vstd::prelude::*;

verus! {

#[derive(Debug, Clone, PartialEq, Eq)]
pub enum Api {
    AdjFactor,
    StockBasic,
    FundBasic,
    FundDaily,
    FundPortfolio,
    Daily,
    DailyBasic,
    MoneyflowMktDc,
    Weekly,
    Monthly,
    IndexDaily,
    IndexWeekly,
    IndexMonthly,
    TradeCal,
    Margin,
    StockCompany,
    MarginDetail,
    StkHoldernumber,
    ThsIndex,
    ThsMember,
    ThsDaily,
    ThsHot,
    FinaMainbz,
    FinaMainbzVip,
    FinaIndicator,
    Balancesheet,
    Income,
    Cashflow,
    IndexBasic,
    IndexDailyBasic,
    Moneyflow,
    MoneyflowIndustryThs,
    UsBasic,
    UsDaily,
    /// Any other endpoint, by its wire name.
    Custom(String),
}

/// The wire name of each endpoint.
pub open spec fn api_name_spec(api: Api) -> Seq<char> {
    match api {
        Api::AdjFactor => "adj_factor"@,
        Api::StockBasic => "stock_basic"@,
        Api::FundBasic => "fund_basic"@,
        Api::FundDaily => "fund_daily"@,
        Api::FundPortfolio => "fund_portfolio"@,
        Api::Daily => "daily"@,
        Api::DailyBasic => "daily_basic"@,
        Api::MoneyflowMktDc => "moneyflow_mkt_dc"@,
        Api::Weekly => "weekly"@,
        Api::Monthly => "monthly"@,
        Api::IndexDaily => "index_daily"@,
        Api::IndexWeekly => "index_weekly"@,
        Api::IndexMonthly => "index_monthly"@,
        Api::TradeCal => "trade_cal"@,
        Api::Margin => "margin"@,
        Api::StockCompany => "stock_company"@,
        Api::MarginDetail => "margin_detail"@,
        Api::StkHoldernumber => "stk_holdernumber"@,
        Api::ThsIndex => "ths_index"@,
        Api::ThsMember => "ths_member"@,
        Api::ThsDaily => "ths_daily"@,
        Api::ThsHot => "ths_hot"@,
        Api::FinaMainbz => "fina_mainbz"@,
        Api::FinaMainbzVip => "fina_mainbz_vip"@,
        Api::FinaIndicator => "fina_indicator"@,
        Api::Balancesheet => "balancesheet"@,
        Api::Income => "income"@,
        Api::Cashflow => "cashflow"@,
        Api::IndexBasic => "index_basic"@,
        Api::IndexDailyBasic => "index_daily_basic"@,
        Api::Moneyflow => "moneyflow"@,
        Api::MoneyflowIndustryThs => "moneyflow_industry_ths"@,
        Api::UsBasic => "us_basic"@,
        Api::UsDaily => "us_daily"@,
        Api::Custom(name) => name@,
    }
}

impl Api {
    /// The endpoint's wire name.
    pub fn name(&self) -> (r: String)
        ensures
            r@ == api_name_spec(*self),
    {
        match self {
            Api::AdjFactor => "adj_factor".to_owned(),
            Api::StockBasic => "stock_basic".to_owned(),
            Api::FundBasic => "fund_basic".to_owned(),
            Api::FundDaily => "fund_daily".to_owned(),
            Api::FundPortfolio => "fund_portfolio".to_owned(),
            Api::Daily => "daily".to_owned(),
            Api::DailyBasic => "daily_basic".to_owned(),
            Api::MoneyflowMktDc => "moneyflow_mkt_dc".to_owned(),
            Api::Weekly => "weekly".to_owned(),
            Api::Monthly => "monthly".to_owned(),
            Api::IndexDaily => "index_daily".to_owned(),
            Api::IndexWeekly => "index_weekly".to_owned(),
            Api::IndexMonthly => "index_monthly".to_owned(),
            Api::TradeCal => "trade_cal".to_owned(),
            Api::Margin => "margin".to_owned(),
            Api::StockCompany => "stock_company".to_owned(),
            Api::MarginDetail => "margin_detail".to_owned(),
            Api::StkHoldernumber => "stk_holdernumber".to_owned(),
            Api::ThsIndex => "ths_index".to_owned(),
            Api::ThsMember => "ths_member".to_owned(),
            Api::ThsDaily => "ths_daily".to_owned(),
            Api::ThsHot => "ths_hot".to_owned(),
            Api::FinaMainbz => "fina_mainbz".to_owned(),
            Api::FinaMainbzVip => "fina_mainbz_vip".to_owned(),
            Api::FinaIndicator => "fina_indicator".to_owned(),
            Api::Balancesheet => "balancesheet".to_owned(),
            Api::Income => "income".to_owned(),
            Api::Cashflow => "cashflow".to_owned(),
            Api::IndexBasic => "index_basic".to_owned(),
            Api::IndexDailyBasic => "index_daily_basic".to_owned(),
            Api::Moneyflow => "moneyflow".to_owned(),
            Api::MoneyflowIndustryThs => "moneyflow_industry_ths".to_owned(),
            Api::UsBasic => "us_basic".to_owned(),
            Api::UsDaily => "us_daily".to_owned(),
            Api::Custom(name) => name.clone(),
        }
    }
}

} // verus!
