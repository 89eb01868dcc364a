use crate::paper::Paper;
use crate::paper::PaperTypeV;
use crate::paper::SizeV;
use crate::paper::names_of;
use crate::paper::sizes_of;
use crate::text::dec_rep;
use crate::text::int_rep;
use crate::text::i32_to_string;
use crate::text::u64_to_string;
use vstd::prelude::*;

verus! {

// ---------------------------------------------------------------------------
// The texts the bot sends, as character sequences
// ---------------------------------------------------------------------------

/// One numbered line of the paper prompt: `"<j+1> - <name>\n"`.
pub open spec fn name_line(names: Seq<Seq<char>>, j: int) -> Seq<char> {
    dec_rep(j + 1) + " - "@ + names[j] + "\n"@
}

/// The first `k` numbered lines of the paper prompt.
pub open spec fn name_lines(names: Seq<Seq<char>>, k: int) -> Seq<char>
    decreases k,
{
    if k <= 0 {
        Seq::empty()
    } else {
        name_lines(names, k - 1) + name_line(names, k - 1)
    }
}

/// The paper prompt: a header and one numbered line per paper type.
pub open spec fn paper_prompt_spec(names: Seq<Seq<char>>) -> Seq<char> {
    "Выберите тип бумаги: \n"@ + name_lines(names, names.len() as int)
}

/// One numbered line of the size prompt: `"<j+1> - <size> <price>руб/шт\n"`.
pub open spec fn size_line(sizes: Seq<SizeV>, j: int) -> Seq<char> {
    dec_rep(j + 1) + " - "@ + sizes[j].size + " "@ + int_rep(sizes[j].price) + "руб/шт\n"@
}

/// The first `k` numbered lines of the size prompt.
pub open spec fn size_lines(sizes: Seq<SizeV>, k: int) -> Seq<char>
    decreases k,
{
    if k <= 0 {
        Seq::empty()
    } else {
        size_lines(sizes, k - 1) + size_line(sizes, k - 1)
    }
}

/// The size prompt: a header and one numbered line per available size.
pub open spec fn size_prompt_spec(sizes: Seq<SizeV>) -> Seq<char> {
    "Выберите размер фотографий: \n"@ + size_lines(sizes, sizes.len() as int)
}

/// The standing request to confirm that all photographs are uploaded.
pub open spec fn ready_text() -> Seq<char> {
    "Если Вы загрузили все фотографии, то отправьте слово: Готово"@
}

/// The closing notice: the order id and where to pick the prints up.
pub open spec fn final_prompt_spec(order_id: Seq<char>, addr: Seq<char>, phone: Seq<char>) -> Seq<
    char,
> {
    "Ваш заказ "@ + order_id + " принят!\n\nПолучение по адресу:"@ + addr + "\nтел: "@ + phone
}

// ---------------------------------------------------------------------------
// The prompt generator
// ---------------------------------------------------------------------------

/// Builds every text the bot sends, over the catalog and the shop's
/// pickup address and phone.
pub struct Prompt {
    pub paper: Paper,
    pub shop_address: String,
    pub shop_phone: String,
}

impl Prompt {
    /// A prompt generator over the given catalog and shop contact data.
    pub fn new(paper: Paper, shop_address: String, shop_phone: String) -> (p: Prompt)
        ensures
            p.paper@ == paper@,
            p.shop_address@ == shop_address@,
            p.shop_phone@ == shop_phone@,
    {
        Prompt { paper, shop_address, shop_phone }
    }

    /// The paper name at a 0-based index, when the catalog has one there.
    pub fn try_get_paper(&self, idx: usize) -> (r: Option<String>)
        ensures
            match r {
                Some(p) => idx < names_of(self.paper@).len() && p@ == names_of(self.paper@)[
                    idx as int
                ],
                None => idx >= names_of(self.paper@).len(),
            },
    {
        let names = self.paper.paper_vec();
        if idx >= names.len() {
            None
        } else {
            Some(names[idx].clone())
        }
    }

    /// The size and price at a 0-based index into the named paper's size
    /// list, when there is one there.
    pub fn try_get_size(&self, paper: &str, idx: usize) -> (r: Option<(String, i32)>)
        ensures
            match r {
                Some(sp) => idx < sizes_of(self.paper@, paper@).len() && sp.0@ == sizes_of(
                    self.paper@,
                    paper@,
                )[idx as int].size && sp.1 as int == sizes_of(self.paper@, paper@)[
                    idx as int
                ].price,
                None => idx >= sizes_of(self.paper@, paper@).len(),
            },
    {
        let sizes = self.paper.sizes_by_paper(paper);
        if idx >= sizes.len() {
            None
        } else {
            Some((sizes[idx].size.clone(), sizes[idx].price))
        }
    }

    /// The numbered list of paper types to choose from.
    pub fn paper_prompt(&self) -> (r: String)
        ensures
            r@ == paper_prompt_spec(names_of(self.paper@)),
    {
        let names = self.paper.paper_vec();
        let ghost gnames = names_of(self.paper@);
        let mut out = String::from_str("Выберите тип бумаги: \n");
        let mut i: usize = 0;
        while i < names.len()
            invariant
                0 <= i <= names.len(),
                names.deep_view() == gnames,
                names@.len() == gnames.len(),
                out@ == "Выберите тип бумаги: \n"@ + name_lines(gnames, i as int),
            decreases names.len() - i,
        {
            let num = u64_to_string((i + 1) as u64);
            out.append(num.as_str());
            out.append(" - ");
            out.append(names[i].as_str());
            out.append("\n");
            proof {
                assert(names@[i as int]@ == gnames[i as int]);
                assert(out@ =~= "Выберите тип бумаги: \n"@ + name_lines(gnames, i as int + 1));
            }
            i += 1;
        }
        out
    }

    /// The numbered list of sizes of the named paper to choose from.
    pub fn size_prompt(&self, paper: &str) -> (r: String)
        ensures
            r@ == size_prompt_spec(sizes_of(self.paper@, paper@)),
    {
        let sizes = self.paper.sizes_by_paper(paper);
        let ghost gsizes = sizes_of(self.paper@, paper@);
        let mut out = String::from_str("Выберите размер фотографий: \n");
        let mut i: usize = 0;
        while i < sizes.len()
            invariant
                0 <= i <= sizes.len(),
                sizes.deep_view() == gsizes,
                sizes@.len() == gsizes.len(),
                out@ == "Выберите размер фотографий: \n"@ + size_lines(gsizes, i as int),
            decreases sizes.len() - i,
        {
            let num = u64_to_string((i + 1) as u64);
            out.append(num.as_str());
            out.append(" - ");
            out.append(sizes[i].size.as_str());
            out.append(" ");
            let price = i32_to_string(sizes[i].price);
            out.append(price.as_str());
            out.append("руб/шт\n");
            proof {
                assert(sizes@[i as int]@ == gsizes[i as int]);
                assert(out@ =~= "Выберите размер фотографий: \n"@ + size_lines(
                    gsizes,
                    i as int + 1,
                ));
            }
            i += 1;
        }
        out
    }

    /// The standing request to confirm the upload is complete.
    pub fn ready_prompt(&self) -> (r: String)
        ensures
            r@ == ready_text(),
    {
        String::from_str("Если Вы загрузили все фотографии, то отправьте слово: Готово")
    }

    /// The closing notice for an accepted order.
    pub fn final_prompt(&self, order_id: String) -> (r: String)
        ensures
            r@ == final_prompt_spec(order_id@, self.shop_address@, self.shop_phone@),
    {
        let mut out = String::from_str("Ваш заказ ");
        out.append(order_id.as_str());
        out.append(" принят!\n\nПолучение по адресу:");
        out.append(self.shop_address.as_str());
        out.append("\nтел: ");
        out.append(self.shop_phone.as_str());
        proof {
            assert(out@ =~= final_prompt_spec(order_id@, self.shop_address@, self.shop_phone@));
        }
        out
    }
}

} // verus!
