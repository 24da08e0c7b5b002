//! Parameters of a German invoice, rendered as markup text.
//!
//! Every renderer here is plain concatenation: fixed pieces of markup with
//! the fields of the value between them, in a fixed order. The fixed pieces
//! are the constants below; each renderer's contract is a spec function that
//! names the pieces and fields in the order in which they appear.

use vstd::prelude::*;
use vstd::string::*;

use crate::text::{join, joined, texts};

verus! {

pub const BANK_NAME: &'static str = "\n  (\n    name: \"";

pub const BANK_BANK: &'static str = "\",\n    bank: \"";

pub const BANK_IBAN: &'static str = "\",\n    iban: \"";

pub const BANK_BIC: &'static str = "\",\n    bic: \"";

pub const BANK_CLOSE: &'static str =
    "\",\n    // There is currently only one gendered term in this template.\n    // You can overwrite it, or omit it and just choose the default.\n    gender: (account_holder: \"Kontoinhaberin\")\n    )\n                ";

pub const CLIENT_NAME: &'static str = "(\n              name: \"";

pub const CLIENT_STREET: &'static str = "\",\n              street: \"";

pub const CLIENT_ZIP: &'static str = "\",\n              zip: \"";

pub const CLIENT_CITY: &'static str = "\",\n              city: \"";

pub const CLIENT_CLOSE: &'static str = "\",\n            )";

pub const ITEM_DESCRIPTION: &'static str = "(\n              description: \"";

pub const ITEM_PRICE: &'static str = "\",\n              price: ";

pub const ITEM_CLOSE: &'static str = ",\n            )";

pub const ITEM_SEPARATOR: &'static str = ",\n    ";

pub const AUTHOR_NAME: &'static str = "(\n                  name: \"";

pub const AUTHOR_STREET: &'static str = "\",\n                  street: \"";

pub const AUTHOR_ZIP: &'static str = "\",\n                  zip: \"";

pub const AUTHOR_CITY: &'static str = "\",\n                  city: \"";

pub const AUTHOR_TAX: &'static str = "\",\n                  tax_nr: \"";

pub const AUTHOR_CLOSE: &'static str =
    "\",\n                  // optional signature, can be omitted\n                  // signature: image(\"example_signature.png\", width: 5em)\n                )";

pub const INVOICE_NUMBER: &'static str =
    "\n#import \"@preview/classy-german-invoice:0.3.1\": invoice\n\n#show: invoice(\n  \"";

pub const INVOICE_DATE: &'static str = "\",\n  // Invoice date\n  ";

pub const INVOICE_ITEMS: &'static str = ",\n  // Items\n  (\n    ";

pub const INVOICE_AUTHOR: &'static str = "\n  ),\n  // Author\n    ";

pub const INVOICE_RECIPIENT: &'static str = ",\n  // Recipient\n    ";

pub const INVOICE_BANK: &'static str = ",\n  // Bank account\n    ";

pub const INVOICE_CLOSE: &'static str =
    ",\n  // Umsatzsteuersatz (VAT)\n  vat: 0.19,\n  kleinunternehmer: true,\n  )\n        ";

/// Everything an invoice needs: number, date, items, both parties and the
/// account to pay into.
pub struct GermanTemplateData {
    pub invoice_number: String,
    /// YYYY-MM-DD format
    pub date: String,
    pub items: Vec<InvoiceItem>,
    pub author: Author,
    pub recipient: Client,
    pub bank_account: BankAccount,
    /// The VAT rate in percent, as a decimal numeral. The markup carries a
    /// fixed rate, so this is not rendered.
    pub vat_rate: String,
    /// Whether the invoice is for a micro business or kleinunternehmer
    pub is_micro_business: bool,
}

/// The markup of each item, in order.
pub open spec fn item_params(items: Seq<InvoiceItem>) -> Seq<Seq<char>> {
    items.map_values(|item: InvoiceItem| item.pdf_params())
}

impl GermanTemplateData {
    /// The markup that `into_typst_template` produces: the invoice call with
    /// number, date, the items joined by `ITEM_SEPARATOR`, author, recipient
    /// and bank account.
    pub open spec fn typst_template(self) -> Seq<char> {
        INVOICE_NUMBER@ + self.invoice_number@ + INVOICE_DATE@ + self.date@ + INVOICE_ITEMS@
            + joined(item_params(self.items@), ITEM_SEPARATOR@) + INVOICE_AUTHOR@
            + self.author.pdf_params() + INVOICE_RECIPIENT@ + self.recipient.pdf_params()
            + INVOICE_BANK@ + self.bank_account.pdf_params() + INVOICE_CLOSE@
    }

    /// Renders the whole invoice as markup for the compiler.
    pub fn into_typst_template(self) -> (text: String)
        ensures
            text@ == self.typst_template(),
    {
        let mut rendered: Vec<String> = Vec::new();
        let mut i: usize = 0;
        while i < self.items.len()
            invariant
                i <= self.items.len(),
                rendered.len() == i,
                forall|k: int| 0 <= k < i ==> (#[trigger] rendered[k])@ == self.items[k].pdf_params(),
            decreases self.items.len() - i,
        {
            rendered.push(self.items[i].params_text());
            i += 1;
        }
        assert(texts(rendered@) =~= item_params(self.items@));
        let items_text = join(&rendered, ITEM_SEPARATOR);

        let mut text = String::from_str(INVOICE_NUMBER);
        text.append(self.invoice_number.as_str());
        text.append(INVOICE_DATE);
        text.append(self.date.as_str());
        text.append(INVOICE_ITEMS);
        text.append(items_text.as_str());
        text.append(INVOICE_AUTHOR);
        text.append(self.author.params_text().as_str());
        text.append(INVOICE_RECIPIENT);
        text.append(self.recipient.params_text().as_str());
        text.append(INVOICE_BANK);
        text.append(self.bank_account.params_text().as_str());
        text.append(INVOICE_CLOSE);
        text
    }
}

/// A bank account to which an invoice is to be paid.
pub struct BankAccount {
    pub name: String,
    pub iban: String,
    pub bic: String,
    pub bank_name: String,
    pub gender: String,
}

impl BankAccount {
    /// The markup that `into_pdf_params` produces: holder, bank, IBAN and
    /// BIC. The gendered term is fixed, whatever `gender` holds.
    pub open spec fn pdf_params(self) -> Seq<char> {
        BANK_NAME@ + self.name@ + BANK_BANK@ + self.bank_name@ + BANK_IBAN@ + self.iban@
            + BANK_BIC@ + self.bic@ + BANK_CLOSE@
    }

    fn params_text(&self) -> (text: String)
        ensures
            text@ == self.pdf_params(),
    {
        let mut text = String::from_str(BANK_NAME);
        text.append(self.name.as_str());
        text.append(BANK_BANK);
        text.append(self.bank_name.as_str());
        text.append(BANK_IBAN);
        text.append(self.iban.as_str());
        text.append(BANK_BIC);
        text.append(self.bic.as_str());
        text.append(BANK_CLOSE);
        text
    }

    /// Renders the account as an argument of the invoice call.
    pub fn into_pdf_params(self) -> (text: String)
        ensures
            text@ == self.pdf_params(),
    {
        self.params_text()
    }
}

/// The party that receives the invoice.
pub struct Client {
    pub name: String,
    pub address: Address,
}

impl Client {
    /// The markup that `into_pdf_params` produces: name, street, zip code
    /// and city. Country, tax number and signature are not rendered.
    pub open spec fn pdf_params(self) -> Seq<char> {
        CLIENT_NAME@ + self.name@ + CLIENT_STREET@ + self.address.street@ + CLIENT_ZIP@
            + self.address.zip_code@ + CLIENT_CITY@ + self.address.city@ + CLIENT_CLOSE@
    }

    fn params_text(&self) -> (text: String)
        ensures
            text@ == self.pdf_params(),
    {
        let mut text = String::from_str(CLIENT_NAME);
        text.append(self.name.as_str());
        text.append(CLIENT_STREET);
        text.append(self.address.street.as_str());
        text.append(CLIENT_ZIP);
        text.append(self.address.zip_code.as_str());
        text.append(CLIENT_CITY);
        text.append(self.address.city.as_str());
        text.append(CLIENT_CLOSE);
        text
    }

    /// Renders the recipient as an argument of the invoice call.
    pub fn into_pdf_params(self) -> (text: String)
        ensures
            text@ == self.pdf_params(),
    {
        self.params_text()
    }
}

/// One line of an invoice.
pub struct InvoiceItem {
    pub description: String,
    /// The price, as the decimal numeral that the markup is to carry.
    pub price: String,
}

impl InvoiceItem {
    /// The markup that `into_pdf_params` produces: the description in
    /// quotes and the price as it stands.
    pub open spec fn pdf_params(self) -> Seq<char> {
        ITEM_DESCRIPTION@ + self.description@ + ITEM_PRICE@ + self.price@ + ITEM_CLOSE@
    }

    fn params_text(&self) -> (text: String)
        ensures
            text@ == self.pdf_params(),
    {
        let mut text = String::from_str(ITEM_DESCRIPTION);
        text.append(self.description.as_str());
        text.append(ITEM_PRICE);
        text.append(self.price.as_str());
        text.append(ITEM_CLOSE);
        text
    }

    /// Renders the item as an element of the invoice's item list.
    pub fn into_pdf_params(self) -> (text: String)
        ensures
            text@ == self.pdf_params(),
    {
        self.params_text()
    }
}

/// The party that issues the invoice.
pub struct Author {
    pub name: String,
    pub address: Address,
    pub email: String,
}

impl Author {
    /// The markup that `into_pdf_params` produces: name, street, zip code,
    /// city and tax number. Country, signature and email are not rendered.
    pub open spec fn pdf_params(self) -> Seq<char> {
        AUTHOR_NAME@ + self.name@ + AUTHOR_STREET@ + self.address.street@ + AUTHOR_ZIP@
            + self.address.zip_code@ + AUTHOR_CITY@ + self.address.city@ + AUTHOR_TAX@
            + self.address.tax_nb@ + AUTHOR_CLOSE@
    }

    fn params_text(&self) -> (text: String)
        ensures
            text@ == self.pdf_params(),
    {
        let mut text = String::from_str(AUTHOR_NAME);
        text.append(self.name.as_str());
        text.append(AUTHOR_STREET);
        text.append(self.address.street.as_str());
        text.append(AUTHOR_ZIP);
        text.append(self.address.zip_code.as_str());
        text.append(AUTHOR_CITY);
        text.append(self.address.city.as_str());
        text.append(AUTHOR_TAX);
        text.append(self.address.tax_nb.as_str());
        text.append(AUTHOR_CLOSE);
        text
    }

    /// Renders the author as an argument of the invoice call.
    pub fn into_pdf_params(self) -> (text: String)
        ensures
            text@ == self.pdf_params(),
    {
        self.params_text()
    }
}

/// A postal address with the tax number registered at it.
pub struct Address {
    pub street: String,
    pub city: String,
    pub zip_code: String,
    pub country: String,
    pub tax_nb: String,
    pub signature: Option<String>,
}

} // verus!
